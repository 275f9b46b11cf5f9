use unicode_segmentation::UnicodeSegmentation;
use vstd::prelude::*;
use vstd::std_specs::iter::IteratorSpec;

verus! {

/// The characters that may not occur anywhere in a subscriber name.
pub open spec fn is_forbidden_char(c: char) -> bool {
    c == '/' || c == '(' || c == ')' || c == '"' || c == '<' || c == '>' || c == '\\'
        || c == '{' || c == '}'
}

/// Some character of `s` is forbidden.
pub open spec fn has_forbidden_char(s: Seq<char>) -> bool {
    exists|i: int| 0 <= i < s.len() && is_forbidden_char(#[trigger] s[i])
}

/// Tells whether `c` is one of the forbidden characters.
pub fn is_forbidden_character(c: char) -> (r: bool)
    ensures
        r == is_forbidden_char(c),
{
    c == '/' || c == '(' || c == ')' || c == '"' || c == '<' || c == '>' || c == '\\'
        || c == '{' || c == '}'
}

/// Tells whether `name` holds at least one forbidden character.
pub fn contains_forbidden_characters(name: &str) -> (r: bool)
    ensures
        r == has_forbidden_char(name@),
{
    broadcast use vstd::string::axiom_spec_iter, vstd::string::next_postcondition;

    let mut chars = name.chars();
    let ghost mut seen: int = 0;
    loop
        invariant
            0 <= seen <= name@.len(),
            chars.remaining() == name@.skip(seen),
            chars.obeys_prophetic_iter_laws(),
            forall|j: int| 0 <= j < seen ==> !is_forbidden_char(#[trigger] name@[j]),
        decreases name@.len() - seen,
    {
        match chars.next() {
            Some(c) => {
                assert(name@[seen] == c);
                if is_forbidden_character(c) {
                    return true;
                }
                proof {
                    seen = seen + 1;
                }
            },
            None => {
                assert(seen == name@.len());
                return false;
            },
        }
    }
}

/// Whether `c` has the Unicode White_Space property: the tab, line feed, line
/// tabulation, form feed and carriage return controls, space, next line,
/// no-break space, ogham space mark, the spaces from en quad to hair space,
/// line and paragraph separators, narrow no-break space, medium mathematical
/// space and ideographic space.
pub open spec fn white_space(c: char) -> bool {
    ('\u{9}' <= c && c <= '\u{d}') || c == ' ' || c == '\u{85}' || c == '\u{a0}'
        || c == '\u{1680}' || ('\u{2000}' <= c && c <= '\u{200a}') || c == '\u{2028}'
        || c == '\u{2029}' || c == '\u{202f}' || c == '\u{205f}' || c == '\u{3000}'
}

/// The number of extended grapheme clusters of `s`, as unicode-segmentation
/// counts them.
pub uninterp spec fn grapheme_count(s: Seq<char>) -> nat;

/// Relies on `char::is_whitespace`: true exactly for the characters with the
/// White_Space property, the same set that `str::trim` strips.
#[verifier::external_body]
fn char_is_whitespace(c: char) -> (r: bool)
    ensures
        r == white_space(c),
{
    c.is_whitespace()
}

/// Relies on `UnicodeSegmentation::graphemes` with `is_extended` set, and on
/// counting what its iterator yields: one item per extended grapheme cluster.
#[verifier::external_body]
fn count_graphemes(s: &str) -> (r: usize)
    ensures
        r as nat == grapheme_count(s@),
{
    s.graphemes(true).count()
}

/// `s` is empty or holds whitespace alone, so that trimming it leaves nothing.
pub open spec fn is_blank(s: Seq<char>) -> bool {
    forall|i: int| 0 <= i < s.len() ==> white_space(#[trigger] s[i])
}

/// The longest name allowed, in extended grapheme clusters.
pub const MAX_GRAPHEMES: usize = 256;

/// The rules a name must meet, given its count of grapheme clusters.
pub open spec fn meets_name_rules(s: Seq<char>, graphemes: nat) -> bool {
    !is_blank(s) && graphemes <= MAX_GRAPHEMES && !has_forbidden_char(s)
}

/// `s` is an acceptable subscriber name.
pub open spec fn is_valid_name(s: Seq<char>) -> bool {
    meets_name_rules(s, grapheme_count(s))
}

/// The message that a rejection of `s` carries.
pub open spec fn rejection_message(s: Seq<char>) -> Seq<char> {
    s + " is not a valid subscriber name"@
}

/// The outcome of validating `s`: the name itself, or the message.
pub open spec fn validation_outcome(s: Seq<char>) -> Result<Seq<char>, Seq<char>> {
    if is_valid_name(s) {
        Ok(s)
    } else {
        Err(rejection_message(s))
    }
}

/// Tells whether `name` is empty or holds whitespace alone.
pub fn is_empty_or_whitespace(name: &str) -> (r: bool)
    ensures
        r == is_blank(name@),
{
    broadcast use vstd::string::axiom_spec_iter, vstd::string::next_postcondition;

    let mut chars = name.chars();
    let ghost mut seen: int = 0;
    loop
        invariant
            0 <= seen <= name@.len(),
            chars.remaining() == name@.skip(seen),
            chars.obeys_prophetic_iter_laws(),
            forall|j: int| 0 <= j < seen ==> white_space(#[trigger] name@[j]),
        decreases name@.len() - seen,
    {
        match chars.next() {
            Some(c) => {
                assert(name@[seen] == c);
                if !char_is_whitespace(c) {
                    return false;
                }
                proof {
                    seen = seen + 1;
                }
            },
            None => {
                assert(seen == name@.len());
                return true;
            },
        }
    }
}

/// Decides whether `name`, whose count of extended grapheme clusters is
/// `graphemes`, meets the rules of a subscriber name.
pub fn satisfies_name_rules(name: &str, graphemes: usize) -> (r: bool)
    ensures
        r == meets_name_rules(name@, graphemes as nat),
{
    let blank = is_empty_or_whitespace(name);
    let too_long = graphemes > MAX_GRAPHEMES;
    let forbidden = contains_forbidden_characters(name);
    !(blank || too_long || forbidden)
}

/// Builds the message that rejects `name`.
fn invalid_name_message(name: &str) -> (r: String)
    ensures
        r@ == rejection_message(name@),
{
    let mut msg = String::from_str(name);
    msg.append(" is not a valid subscriber name");
    msg
}

/// A subscriber name that has passed validation. It can only be made by
/// [`SubscriberName::parse`], and its text is never changed afterwards.
#[derive(Debug)]
pub struct SubscriberName(String);

impl View for SubscriberName {
    type V = Seq<char>;

    closed spec fn view(&self) -> Seq<char> {
        self.0@
    }
}

/// The outcome of `parse` in terms of text: the name's view, or the message.
pub open spec fn outcome_view(r: &Result<SubscriberName, String>) -> Result<Seq<char>, Seq<char>> {
    match r {
        Ok(v) => Ok(v@),
        Err(e) => Err(e@),
    }
}

impl SubscriberName {
    #[verifier::type_invariant]
    spec fn inv(&self) -> bool {
        is_valid_name(self.0@)
    }

    /// Validates `name`. On success the result wraps `name` unchanged; on
    /// failure the error is `"<name> is not a valid subscriber name"`, whichever
    /// rule failed.
    pub fn parse(name: String) -> (r: Result<SubscriberName, String>)
        ensures
            outcome_view(&r) == validation_outcome(name@),
            r matches Ok(v) ==> v@ == name@,
            r matches Err(e) ==> e@ == rejection_message(name@),
            r is Ok <==> is_valid_name(name@),
            is_blank(name@) ==> r is Err,
            grapheme_count(name@) > MAX_GRAPHEMES ==> r is Err,
            has_forbidden_char(name@) ==> r is Err,
            !is_blank(name@) && grapheme_count(name@) <= MAX_GRAPHEMES && !has_forbidden_char(
                name@,
            ) ==> r is Ok,
    {
        let graphemes = count_graphemes(name.as_str());
        if satisfies_name_rules(name.as_str(), graphemes) {
            Ok(SubscriberName(name))
        } else {
            Err(invalid_name_message(name.as_str()))
        }
    }

    /// The validated text, exactly as it was given to `parse`.
    pub fn as_str(&self) -> (r: &str)
        ensures
            r@ == self@,
            is_valid_name(r@),
    {
        proof {
            use_type_invariant(self);
        }
        self.0.as_str()
    }
}

impl AsRef<str> for SubscriberName {
    fn as_ref(&self) -> (r: &str)
        ensures
            r@ == self@,
            is_valid_name(r@),
    {
        proof {
            use_type_invariant(self);
        }
        self.0.as_str()
    }
}

impl PartialEq for SubscriberName {
    fn eq(&self, other: &SubscriberName) -> (r: bool) {
        self.0 == other.0
    }
}

impl vstd::std_specs::cmp::PartialEqSpecImpl for SubscriberName {
    open spec fn obeys_eq_spec() -> bool {
        true
    }

    open spec fn eq_spec(&self, other: &SubscriberName) -> bool {
        self@ == other@
    }
}

impl Eq for SubscriberName {

}

/// Validating the text of a validated name succeeds again and gives back the
/// same text: validation is idempotent.
pub proof fn lemma_revalidation_succeeds(s: Seq<char>)
    requires
        is_valid_name(s),
    ensures
        validation_outcome(s) == Ok::<Seq<char>, Seq<char>>(s),
        validation_outcome(s) matches Ok(t) && validation_outcome(t) == validation_outcome(s),
{
}

/// Validation depends on the text alone: equal inputs get equal outcomes, the
/// same message included on rejection.
pub proof fn lemma_validation_is_deterministic(a: Seq<char>, b: Seq<char>)
    requires
        a == b,
    ensures
        validation_outcome(a) == validation_outcome(b),
{
}

} // verus!
