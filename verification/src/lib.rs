//! Verified core of a small Web Push sender: subscription validation,
//! VAPID key persistence, push payload framing, and classification of the
//! push provider's answer.

pub mod base64url;
pub mod json;
pub mod paths;
pub mod push;
pub mod status;
pub mod subscription;
pub mod text;
pub mod vapid;
