//! Validated subscriber names: a display name that is not blank, is at most
//! 256 extended grapheme clusters long, and holds none of the characters that
//! have a meaning in markup, paths or templates.
pub mod domain;
