//! The social-graph store: users, follows, posts, likes, and comments.
//!
//! [`SocialNetworkContract`] composes the indexed-counter primitive
//! ([`IndexedRelation`]) and the pairwise membership flags
//! ([`MembershipMap`]) into the full store. Caller authorization and the
//! clock belong to the host environment: every mutating entry point is
//! assumed already authorized for the acting address, and creation times are
//! passed in.

use vstd::prelude::*;

use crate::errors::Error;
use crate::membership::MembershipMap;
use crate::records::{Comment, Post, UserInfo};
use crate::relation::IndexedRelation;

verus! {

/// The single owner key under which the global post ledger is kept. The
/// global ledger has its own relation, so this constant can never collide
/// with a user's address.
const FEED_OWNER: u64 = 0;

/// One like toggle of the pair `(post_nr, address)`: the membership flag
/// flips, and the aggregate moves by exactly one, down when the flag was set,
/// up when it was clear. This is the state change `set_or_remove_like`
/// promises on success.
pub open spec fn like_toggled(
    pre: SocialNetworkContract,
    post: SocialNetworkContract,
    post_nr: u32,
    address: u64,
) -> bool {
    &&& post.liked(post_nr, address) == !pre.liked(post_nr, address)
    &&& post.likes_count(post_nr) == if pre.liked(post_nr, address) {
        (pre.likes_count(post_nr) - 1) as nat
    } else {
        pre.likes_count(post_nr) + 1
    }
}

/// Law: toggling a like twice for the same `(post, user)` pair returns the
/// post to its original aggregate count and membership flag.
pub proof fn lemma_toggle_like_twice(
    s0: SocialNetworkContract,
    s1: SocialNetworkContract,
    s2: SocialNetworkContract,
    post_nr: u32,
    address: u64,
)
    requires
        like_toggled(s0, s1, post_nr, address),
        like_toggled(s1, s2, post_nr, address),
    ensures
        s2.liked(post_nr, address) == s0.liked(post_nr, address),
        s2.likes_count(post_nr) == s0.likes_count(post_nr),
{
    if s0.liked(post_nr, address) {
        assert(s0.likes_count(post_nr) >= 1);
    }
}

/// The social-graph data store.
///
/// Every one-to-many relationship — a user's followers, the global post
/// ledger, a user's posts, a post's comments — is an [`IndexedRelation`]:
/// a running count plus 1-indexed slots, append-only. The follow and like
/// relations additionally keep a [`MembershipMap`] flag per pair.
pub struct SocialNetworkContract {
    initialized: bool,
    profiles: vstd::hash_map::HashMapWithView<u64, UserInfo>,
    followers: IndexedRelation<u64>,
    follow_flags: MembershipMap,
    feed: IndexedRelation<Post>,
    user_posts: IndexedRelation<Post>,
    comments: IndexedRelation<Comment>,
    likes: MembershipMap,
}

impl SocialNetworkContract {
    /// Whether `initialize` has run.
    pub closed spec fn is_initialized(self) -> bool {
        self.initialized
    }

    /// The stored profile of `address`, if one was ever written.
    pub closed spec fn profile(self, address: u64) -> Option<UserInfo> {
        if self.profiles@.contains_key(address) {
            Some(self.profiles@[address])
        } else {
            None
        }
    }

    /// The follower list of `address`, in append order. A pair that follows
    /// twice appears twice: the list records appends, not distinct edges.
    pub closed spec fn followers_of(self, address: u64) -> Seq<u64> {
        self.followers.seq_of(address)
    }

    /// The follow membership flag: whether `follower` currently follows
    /// `address`.
    pub closed spec fn follows(self, address: u64, follower: u64) -> bool {
        self.follow_flags.has(address, follower)
    }

    /// The global post ledger, in creation order; a post's `id` is its
    /// 1-based position here.
    pub closed spec fn posts(self) -> Seq<Post> {
        self.feed.seq_of(FEED_OWNER)
    }

    /// The posts authored by `address`, in creation order.
    pub closed spec fn posts_of(self, address: u64) -> Seq<Post> {
        self.user_posts.seq_of(address)
    }

    /// The comments of post `post_nr`, in creation order.
    pub closed spec fn comments_of(self, post_nr: u32) -> Seq<Comment> {
        self.comments.seq_of(post_nr as u64)
    }

    /// The like membership flag: whether `address` currently likes post
    /// `post_nr`.
    pub closed spec fn liked(self, post_nr: u32, address: u64) -> bool {
        self.likes.has(post_nr as u64, address)
    }

    /// The like aggregate of post `post_nr`: the number of addresses that
    /// currently like it.
    pub closed spec fn likes_count(self, post_nr: u32) -> nat {
        self.likes.size_of(post_nr as u64)
    }

    /// Internal validity: the components are well-formed, and the follow
    /// membership flag never disagrees with the follower list — a flag is
    /// set exactly when the follower appears in the list.
    pub closed spec fn wf(self) -> bool {
        &&& self.followers.wf()
        &&& self.follow_flags.wf()
        &&& self.feed.wf()
        &&& self.user_posts.wf()
        &&& self.comments.wf()
        &&& self.likes.wf()
        &&& forall|a: u64, f: u64|
            #[trigger] self.follow_flags.has(a, f) <==> self.followers.seq_of(a).contains(f)
        &&& forall|a: u64|
            #[trigger] self.follow_flags.size_of(a) <= self.followers.seq_of(a).len()
        &&& forall|i: int|
            0 <= i < self.feed.seq_of(FEED_OWNER).len() ==> (#[trigger] self.feed.seq_of(
                FEED_OWNER,
            )[i]).id == i + 1
        &&& forall|o: u64, i: int|
            0 <= i < self.comments.seq_of(o).len() ==> (#[trigger] self.comments.seq_of(o)[i]).id
                == i + 1
    }

    /// Both stores hold the same profiles.
    pub open spec fn same_profiles(pre: Self, post: Self) -> bool {
        forall|a: u64| pre.profile(a) == post.profile(a)
    }

    /// Both stores hold the same follower lists and follow flags.
    pub open spec fn same_follow_graph(pre: Self, post: Self) -> bool {
        &&& forall|a: u64| pre.followers_of(a) == post.followers_of(a)
        &&& forall|a: u64, f: u64| pre.follows(a, f) == post.follows(a, f)
    }

    /// Both stores hold the same global ledger and per-user post lists.
    pub open spec fn same_posts(pre: Self, post: Self) -> bool {
        &&& pre.posts() == post.posts()
        &&& forall|a: u64| pre.posts_of(a) == post.posts_of(a)
    }

    /// Both stores hold the same comment lists.
    pub open spec fn same_comments(pre: Self, post: Self) -> bool {
        forall|p: u32| pre.comments_of(p) == post.comments_of(p)
    }

    /// Both stores hold the same like flags and like aggregates.
    pub open spec fn same_likes(pre: Self, post: Self) -> bool {
        &&& forall|p: u32, a: u64| pre.liked(p, a) == post.liked(p, a)
        &&& forall|p: u32| pre.likes_count(p) == post.likes_count(p)
    }

    /// A fresh, uninitialized store: no users, no follows, no posts, no
    /// likes, no comments.
    pub fn new() -> (r: Self)
        ensures
            r.wf(),
            !r.is_initialized(),
            forall|a: u64| r.profile(a) == None::<UserInfo>,
            forall|a: u64| r.followers_of(a) == Seq::<u64>::empty(),
            forall|a: u64, f: u64| !r.follows(a, f),
            r.posts() == Seq::<Post>::empty(),
            forall|a: u64| r.posts_of(a) == Seq::<Post>::empty(),
            forall|p: u32| r.comments_of(p) == Seq::<Comment>::empty(),
            forall|p: u32, a: u64| !r.liked(p, a),
            forall|p: u32| r.likes_count(p) == 0,
    {
        proof {
            broadcast use vstd::std_specs::hash::axiom_u64_obeys_hash_table_key_model;
        }
        SocialNetworkContract {
            initialized: false,
            profiles: vstd::hash_map::HashMapWithView::new(),
            followers: IndexedRelation::new(),
            follow_flags: MembershipMap::new(),
            feed: IndexedRelation::new(),
            user_posts: IndexedRelation::new(),
            comments: IndexedRelation::new(),
            likes: MembershipMap::new(),
        }
    }

    /// Marks the store initialized, exactly once: a second call fails with
    /// [`Error::AlreadyInitialized`] and changes nothing.
    pub fn initialize(&mut self) -> (r: Result<(), Error>)
        requires
            old(self).wf(),
        ensures
            final(self).wf(),
            match r {
                Ok(u) => !old(self).is_initialized() && final(self).is_initialized(),
                Err(e) => e == Error::AlreadyInitialized && old(self).is_initialized()
                    && *final(self) == *old(self),
            },
            Self::same_profiles(*old(self), *final(self)),
            Self::same_follow_graph(*old(self), *final(self)),
            Self::same_posts(*old(self), *final(self)),
            Self::same_comments(*old(self), *final(self)),
            Self::same_likes(*old(self), *final(self)),
    {
        if self.initialized {
            Err(Error::AlreadyInitialized)
        } else {
            self.initialized = true;
            Ok(())
        }
    }

    /// Overwrites the profile of `address` and returns the stored record.
    /// The caller must have been authorized by the host as controlling
    /// `address`.
    pub fn update_user_info(
        &mut self,
        address: u64,
        name: String,
        bio: String,
        avatar_uri: String,
    ) -> (r: UserInfo)
        requires
            old(self).wf(),
        ensures
            final(self).wf(),
            r.name == name && r.bio == bio && r.avatar_uri == avatar_uri,
            final(self).profile(address) == Some(r),
            forall|a: u64| a != address ==> final(self).profile(a) == old(self).profile(a),
            final(self).is_initialized() == old(self).is_initialized(),
            Self::same_follow_graph(*old(self), *final(self)),
            Self::same_posts(*old(self), *final(self)),
            Self::same_comments(*old(self), *final(self)),
            Self::same_likes(*old(self), *final(self)),
    {
        let info = UserInfo { name, bio, avatar_uri };
        let stored = info.duplicate();
        self.profiles.insert(address, stored);
        info
    }

    /// Records that `follower` follows `address`: appends `follower` to the
    /// follower list of `address`, sets the membership flag, and returns the
    /// new follower count. `follower == address` fails with
    /// [`Error::SelfFollowNotAllowed`] and has no effect. Following the same
    /// pair again appends a duplicate list entry and increments the count
    /// even though the flag is already set: the list records appends.
    pub fn follow_user(&mut self, follower: u64, address: u64) -> (r: Result<u32, Error>)
        requires
            old(self).wf(),
            follower != address ==> old(self).followers_of(address).len() < u32::MAX,
        ensures
            final(self).wf(),
            match r {
                Ok(count) => {
                    &&& follower != address
                    &&& count == old(self).followers_of(address).len() + 1
                    &&& final(self).followers_of(address) == old(self).followers_of(
                        address,
                    ).push(follower)
                    &&& final(self).follows(address, follower)
                    &&& forall|a: u64|
                        a != address ==> final(self).followers_of(a) == old(self).followers_of(a)
                    &&& forall|a: u64, f: u64|
                        !(a == address && f == follower) ==> final(self).follows(a, f)
                            == old(self).follows(a, f)
                    &&& final(self).is_initialized() == old(self).is_initialized()
                    &&& Self::same_profiles(*old(self), *final(self))
                    &&& Self::same_posts(*old(self), *final(self))
                    &&& Self::same_comments(*old(self), *final(self))
                    &&& Self::same_likes(*old(self), *final(self))
                },
                Err(e) => e == Error::SelfFollowNotAllowed && follower == address && *final(self)
                    == *old(self),
            },
    {
        if follower == address {
            return Err(Error::SelfFollowNotAllowed);
        }
        let new_count = self.followers.append(address, follower);
        self.follow_flags.set_membership(address, follower, true);
        proof {
            broadcast use vstd::seq_lib::lemma_seq_contains_after_push;

            let ghost pre = *old(self);
            assert forall|a: u64, f: u64| #[trigger] self.follow_flags.has(a, f) == self.followers
                .seq_of(a).contains(f) by {
                if a == address {
                    assert(self.followers.seq_of(a) == pre.followers.seq_of(a).push(follower));
                    if f != follower {
                        assert(self.follow_flags.has(a, f) == pre.follow_flags.has(a, f));
                        assert(pre.follow_flags.has(a, f) == pre.followers.seq_of(a).contains(f));
                    }
                } else {
                    assert(self.follow_flags.has(a, f) == pre.follow_flags.has(a, f));
                    assert(self.followers.seq_of(a) == pre.followers.seq_of(a));
                    assert(pre.follow_flags.has(a, f) == pre.followers.seq_of(a).contains(f));
                }
            }
            assert forall|a: u64| #[trigger] self.follow_flags.size_of(a) <= self.followers.seq_of(
                a,
            ).len() by {
                if a != address {
                    assert(self.follow_flags.members_of(a) == pre.follow_flags.members_of(a));
                    assert(self.followers.seq_of(a) == pre.followers.seq_of(a));
                    assert(pre.follow_flags.size_of(a) <= pre.followers.seq_of(a).len());
                } else {
                    assert(pre.follow_flags.size_of(a) <= pre.followers.seq_of(a).len());
                }
            }
        }
        Ok(new_count)
    }

    /// Creates a post: assigns the next global sequence number as its `id`,
    /// appends it to the global ledger and, independently, to the author's
    /// post list, and returns it. The caller must have been authorized by the
    /// host as controlling `address`; `create_time` is the host clock's
    /// timestamp for this call.
    pub fn add_post(&mut self, address: u64, text: String, content_uri: String, create_time: u64) -> (p: Post)
        requires
            old(self).wf(),
            old(self).posts().len() < u32::MAX,
            old(self).posts_of(address).len() < u32::MAX,
        ensures
            final(self).wf(),
            p.id == old(self).posts().len() + 1,
            p.author == address,
            p.create_time == create_time,
            p.text == text,
            p.content_uri == content_uri,
            final(self).posts() == old(self).posts().push(p),
            final(self).posts_of(address) == old(self).posts_of(address).push(p),
            forall|a: u64| a != address ==> final(self).posts_of(a) == old(self).posts_of(a),
            final(self).is_initialized() == old(self).is_initialized(),
            Self::same_profiles(*old(self), *final(self)),
            Self::same_follow_graph(*old(self), *final(self)),
            Self::same_comments(*old(self), *final(self)),
            Self::same_likes(*old(self), *final(self)),
    {
        let posts_count = self.feed.count(FEED_OWNER);
        let post = Post { id: posts_count + 1, author: address, create_time, text, content_uri };
        let ledger_copy = post.duplicate();
        self.feed.append(FEED_OWNER, ledger_copy);
        let author_copy = post.duplicate();
        self.user_posts.append(address, author_copy);
        post
    }

    /// Toggles the like of `address` on post `post_nr` and returns the new
    /// like aggregate: the membership flag flips, and the aggregate moves by
    /// exactly one, up when the flag was clear, down when it was set. A
    /// `post_nr` outside the global ledger fails with [`Error::OutOfRange`]
    /// and changes nothing. The caller must have been authorized by the host
    /// as controlling `address`.
    pub fn set_or_remove_like(&mut self, address: u64, post_nr: u32) -> (r: Result<u32, Error>)
        requires
            old(self).wf(),
            !old(self).liked(post_nr, address) ==> old(self).likes_count(post_nr) < u32::MAX,
        ensures
            final(self).wf(),
            match r {
                Ok(likes) => {
                    &&& 1 <= post_nr <= old(self).posts().len()
                    &&& final(self).liked(post_nr, address) == !old(self).liked(post_nr, address)
                    &&& likes == final(self).likes_count(post_nr)
                    &&& like_toggled(*old(self), *final(self), post_nr, address)
                    &&& forall|q: u32, a: u64|
                        !(q == post_nr && a == address) ==> final(self).liked(q, a) == old(
                            self,
                        ).liked(q, a)
                    &&& forall|q: u32|
                        q != post_nr ==> final(self).likes_count(q) == old(self).likes_count(q)
                    &&& final(self).is_initialized() == old(self).is_initialized()
                    &&& Self::same_profiles(*old(self), *final(self))
                    &&& Self::same_follow_graph(*old(self), *final(self))
                    &&& Self::same_posts(*old(self), *final(self))
                    &&& Self::same_comments(*old(self), *final(self))
                },
                Err(e) => e == Error::OutOfRange && !(1 <= post_nr <= old(self).posts().len())
                    && *final(self) == *old(self),
            },
    {
        let posts_count = self.feed.count(FEED_OWNER);
        if post_nr == 0 || post_nr > posts_count {
            return Err(Error::OutOfRange);
        }
        let key = post_nr as u64;
        let like_status = self.likes.membership(key, address);
        self.likes.set_membership(key, address, !like_status);
        let likes = self.likes.size(key);
        Ok(likes)
    }

    /// Creates a comment on post `post_nr`: assigns the next post-scoped
    /// sequence number as its `id`, appends it to the post's comment list,
    /// and returns it. Any account may comment on any post, but a `post_nr`
    /// outside the global ledger fails with [`Error::OutOfRange`] and changes
    /// nothing. The caller must have been authorized by the host as
    /// controlling `address`; `create_time` is the host clock's timestamp.
    pub fn add_comment(&mut self, address: u64, post_nr: u32, text: String, create_time: u64) -> (r:
        Result<Comment, Error>)
        requires
            old(self).wf(),
            1 <= post_nr <= old(self).posts().len() ==> old(self).comments_of(post_nr).len()
                < u32::MAX,
        ensures
            final(self).wf(),
            match r {
                Ok(c) => {
                    &&& 1 <= post_nr <= old(self).posts().len()
                    &&& c.id == old(self).comments_of(post_nr).len() + 1
                    &&& c.author == address
                    &&& c.create_time == create_time
                    &&& c.text == text
                    &&& final(self).comments_of(post_nr) == old(self).comments_of(post_nr).push(c)
                    &&& forall|q: u32|
                        q != post_nr ==> final(self).comments_of(q) == old(self).comments_of(q)
                    &&& final(self).is_initialized() == old(self).is_initialized()
                    &&& Self::same_profiles(*old(self), *final(self))
                    &&& Self::same_follow_graph(*old(self), *final(self))
                    &&& Self::same_posts(*old(self), *final(self))
                    &&& Self::same_likes(*old(self), *final(self))
                },
                Err(e) => e == Error::OutOfRange && !(1 <= post_nr <= old(self).posts().len())
                    && *final(self) == *old(self),
            },
    {
        let posts_count = self.feed.count(FEED_OWNER);
        if post_nr == 0 || post_nr > posts_count {
            return Err(Error::OutOfRange);
        }
        let comments_count = self.comments.count(post_nr as u64);
        let comment = Comment { id: comments_count + 1, author: address, create_time, text };
        let stored = comment.duplicate();
        self.comments.append(post_nr as u64, stored);
        Ok(comment)
    }

    /// The profile of `address`, or a profile with empty fields when none
    /// was ever stored. Reads require no authorization.
    pub fn get_user_info(&self, address: u64) -> (r: UserInfo)
        ensures
            match self.profile(address) {
                Some(info) => r == info,
                None => r.name@ == Seq::<char>::empty() && r.bio@ == Seq::<char>::empty()
                    && r.avatar_uri@ == Seq::<char>::empty(),
            },
    {
        match self.profiles.get(&address) {
            Some(info) => info.duplicate(),
            None => UserInfo {
                name: String::new(),
                bio: String::new(),
                avatar_uri: String::new(),
            },
        }
    }

    /// The follower count of `address`; 0 for an account nobody ever
    /// followed, unknown accounts included.
    pub fn get_user_followers_count(&self, address: u64) -> (c: u32)
        requires
            self.wf(),
        ensures
            c == self.followers_of(address).len(),
    {
        self.followers.count(address)
    }

    /// The follower of `address` at index `nr`, which must satisfy
    /// `1 <= nr <= get_user_followers_count(address)`; any other index fails
    /// with [`Error::OutOfRange`].
    pub fn get_user_follower_by_nr(&self, address: u64, nr: u32) -> (r: Result<u64, Error>)
        requires
            self.wf(),
        ensures
            match r {
                Ok(follower) => 1 <= nr <= self.followers_of(address).len() && follower
                    == self.followers_of(address)[nr - 1],
                Err(e) => e == Error::OutOfRange && !(1 <= nr <= self.followers_of(address).len()),
            },
    {
        match self.followers.get(address, nr) {
            Ok(follower) => Ok(*follower),
            Err(e) => Err(e),
        }
    }

    /// The follow membership flag of `(address, follower)`, `false` when the
    /// pair was never set.
    pub fn get_follow_status(&self, address: u64, follower: u64) -> (flag: bool)
        ensures
            flag == self.follows(address, follower),
    {
        self.follow_flags.membership(address, follower)
    }

    /// The total number of posts ever created.
    pub fn get_posts_count(&self) -> (c: u32)
        requires
            self.wf(),
        ensures
            c == self.posts().len(),
    {
        self.feed.count(FEED_OWNER)
    }

    /// The post with global sequence number `post_nr`, which must satisfy
    /// `1 <= post_nr <= get_posts_count()`; any other index fails with
    /// [`Error::OutOfRange`].
    pub fn get_post(&self, post_nr: u32) -> (r: Result<Post, Error>)
        requires
            self.wf(),
        ensures
            match r {
                Ok(p) => 1 <= post_nr <= self.posts().len() && p == self.posts()[post_nr - 1],
                Err(e) => e == Error::OutOfRange && !(1 <= post_nr <= self.posts().len()),
            },
    {
        match self.feed.get(FEED_OWNER, post_nr) {
            Ok(p) => Ok(p.duplicate()),
            Err(e) => Err(e),
        }
    }

    /// The number of posts authored by `address`; 0 for an account that
    /// never posted, unknown accounts included.
    pub fn get_user_post_count(&self, address: u64) -> (c: u32)
        requires
            self.wf(),
        ensures
            c == self.posts_of(address).len(),
    {
        self.user_posts.count(address)
    }

    /// The post of `address` at index `nr` of that user's own post list,
    /// which must satisfy `1 <= nr <= get_user_post_count(address)`; any
    /// other index fails with [`Error::OutOfRange`].
    pub fn get_post_of_user_by_nr(&self, address: u64, nr: u32) -> (r: Result<Post, Error>)
        requires
            self.wf(),
        ensures
            match r {
                Ok(p) => 1 <= nr <= self.posts_of(address).len() && p == self.posts_of(
                    address,
                )[nr - 1],
                Err(e) => e == Error::OutOfRange && !(1 <= nr <= self.posts_of(address).len()),
            },
    {
        match self.user_posts.get(address, nr) {
            Ok(p) => Ok(p.duplicate()),
            Err(e) => Err(e),
        }
    }

    /// The like aggregate of post `post_nr`. A `post_nr` outside the global
    /// ledger fails with [`Error::OutOfRange`].
    pub fn get_post_likes(&self, post_nr: u32) -> (r: Result<u32, Error>)
        requires
            self.wf(),
        ensures
            match r {
                Ok(likes) => 1 <= post_nr <= self.posts().len() && likes == self.likes_count(
                    post_nr,
                ),
                Err(e) => e == Error::OutOfRange && !(1 <= post_nr <= self.posts().len()),
            },
    {
        let posts_count = self.feed.count(FEED_OWNER);
        if post_nr == 0 || post_nr > posts_count {
            return Err(Error::OutOfRange);
        }
        Ok(self.likes.size(post_nr as u64))
    }

    /// The like membership flag of `(post_nr, address)`, `false` when the
    /// pair was never set. A `post_nr` outside the global ledger fails with
    /// [`Error::OutOfRange`].
    pub fn get_like_status(&self, post_nr: u32, address: u64) -> (r: Result<bool, Error>)
        requires
            self.wf(),
        ensures
            match r {
                Ok(flag) => 1 <= post_nr <= self.posts().len() && flag == self.liked(
                    post_nr,
                    address,
                ),
                Err(e) => e == Error::OutOfRange && !(1 <= post_nr <= self.posts().len()),
            },
    {
        let posts_count = self.feed.count(FEED_OWNER);
        if post_nr == 0 || post_nr > posts_count {
            return Err(Error::OutOfRange);
        }
        Ok(self.likes.membership(post_nr as u64, address))
    }

    /// The number of comments on post `post_nr`. A `post_nr` outside the
    /// global ledger fails with [`Error::OutOfRange`].
    pub fn get_post_comments_count(&self, post_nr: u32) -> (r: Result<u32, Error>)
        requires
            self.wf(),
        ensures
            match r {
                Ok(c) => 1 <= post_nr <= self.posts().len() && c == self.comments_of(
                    post_nr,
                ).len(),
                Err(e) => e == Error::OutOfRange && !(1 <= post_nr <= self.posts().len()),
            },
    {
        let posts_count = self.feed.count(FEED_OWNER);
        if post_nr == 0 || post_nr > posts_count {
            return Err(Error::OutOfRange);
        }
        Ok(self.comments.count(post_nr as u64))
    }

    /// The comment at post-scoped index `comment_nr` of post `post_nr`.
    /// Fails with [`Error::OutOfRange`] when `post_nr` lies outside the
    /// global ledger or `comment_nr` lies outside the post's comment list.
    pub fn get_post_comment_by_nr(&self, post_nr: u32, comment_nr: u32) -> (r: Result<
        Comment,
        Error,
    >)
        requires
            self.wf(),
        ensures
            match r {
                Ok(c) => 1 <= post_nr <= self.posts().len() && 1 <= comment_nr <= self.comments_of(
                    post_nr,
                ).len() && c == self.comments_of(post_nr)[comment_nr - 1],
                Err(e) => e == Error::OutOfRange && !(1 <= post_nr <= self.posts().len() && 1
                    <= comment_nr <= self.comments_of(post_nr).len()),
            },
    {
        let posts_count = self.feed.count(FEED_OWNER);
        if post_nr == 0 || post_nr > posts_count {
            return Err(Error::OutOfRange);
        }
        match self.comments.get(post_nr as u64, comment_nr) {
            Ok(c) => Ok(c.duplicate()),
            Err(e) => Err(e),
        }
    }

    /// The membership flag and the follower list never disagree: the flag of
    /// `(address, follower)` is set exactly when `follower` appears in the
    /// follower list of `address`.
    pub proof fn lemma_follow_flag_matches_list(self, address: u64, follower: u64)
        requires
            self.wf(),
        ensures
            self.follows(address, follower) <==> self.followers_of(address).contains(follower),
    {
    }

    /// A post's `id` is its global sequence number: the record at index `i`
    /// of the global ledger carries id `i + 1`, so ids start at 1, follow
    /// creation order with no gaps, and are never reused.
    pub proof fn lemma_post_id_is_global_index(self, i: int)
        requires
            self.wf(),
            0 <= i < self.posts().len(),
        ensures
            self.posts()[i].id == i + 1,
    {
    }

    /// A comment's `id` is its post-scoped sequence number: the record at
    /// index `i` of a post's comment list carries id `i + 1`, local to that
    /// post and not globally unique.
    pub proof fn lemma_comment_id_is_post_index(self, post_nr: u32, i: int)
        requires
            self.wf(),
            0 <= i < self.comments_of(post_nr).len(),
        ensures
            self.comments_of(post_nr)[i].id == i + 1,
    {
    }
}

} // verus!
