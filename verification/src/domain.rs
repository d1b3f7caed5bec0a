pub mod subscriber_email;

pub use subscriber_email::SubscriberEmail;
