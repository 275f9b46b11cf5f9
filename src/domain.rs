pub mod subscriber_name;

pub use subscriber_name::SubscriberName;
