//! A social-graph data store built on an indexed-counter storage model.
//!
//! One-to-many relationships (a user's followers, a user's posts, a post's
//! comments, a post's likers) are represented as a running count plus
//! individually addressed slots, the way a point-lookup key/value backend
//! forces them to be, rather than as native growable collections. The
//! [`relation::IndexedRelation`] primitive implements that pattern once;
//! [`network::SocialNetworkContract`] instantiates it for every relation and
//! adds the pairwise membership flags ([`membership::MembershipMap`]) that
//! back the follow and like relations.

pub mod errors;
pub mod membership;
pub mod network;
pub mod records;
pub mod relation;
