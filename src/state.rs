use vstd::prelude::*;
use crate::models::{Post, User};

verus! {

/// The in-memory users, in order of creation. The user at position `i`
/// carries the id `i + 1`.
pub struct UserList {
    users: Vec<User>,
}

/// The in-memory posts, in order of creation. The post at position `i`
/// carries the id `i + 1`.
pub struct PostList {
    posts: Vec<Post>,
}

/// The largest number of records a list can hold: ids are `u32` and start at 1.
pub const MAX_RECORDS: usize = 0xffff_ffff;

impl View for UserList {
    type V = Seq<User>;

    closed spec fn view(&self) -> Seq<User> {
        self.users@
    }
}

impl View for PostList {
    type V = Seq<Post>;

    closed spec fn view(&self) -> Seq<Post> {
        self.posts@
    }
}

/// Every user in `s` carries its position plus one as its id.
pub open spec fn users_numbered(s: Seq<User>) -> bool {
    forall|i: int| 0 <= i < s.len() ==> #[trigger] s[i].id == i + 1
}

/// Every post in `s` carries its position plus one as its id.
pub open spec fn posts_numbered(s: Seq<Post>) -> bool {
    forall|i: int| 0 <= i < s.len() ==> #[trigger] s[i].id == i + 1
}

impl UserList {
    #[verifier::type_invariant]
    spec fn inv(self) -> bool {
        &&& users_numbered(self.users@)
        &&& self.users@.len() <= MAX_RECORDS
    }

    /// An empty list.
    pub fn new() -> (r: UserList)
        ensures
            r@ == Seq::<User>::empty(),
            users_numbered(r@),
    {
        UserList { users: Vec::new() }
    }

    /// The number of users created so far.
    pub fn len(&self) -> (r: usize)
        ensures
            r == self@.len(),
            users_numbered(self@),
    {
        proof { use_type_invariant(self); }
        self.users.len()
    }

    /// The user at position `i`, if there is one.
    pub fn get(&self, i: usize) -> (r: Option<&User>)
        ensures
            i < self@.len() ==> r == Some(&self@[i as int]),
            i >= self@.len() ==> r.is_none(),
    {
        if i < self.users.len() {
            Some(&self.users[i])
        } else {
            None
        }
    }

    /// Appends a user with the next id (the number of users so far plus one)
    /// and returns that id. When every `u32` id is taken, nothing changes and
    /// the result is `None`.
    pub fn create_user(&mut self, username: String, email: String) -> (r: Option<u32>)
        ensures
            old(self)@.len() < MAX_RECORDS ==> {
                &&& r == Some((old(self)@.len() + 1) as u32)
                &&& final(self)@ == old(self)@.push(
                    User { id: (old(self)@.len() + 1) as u32, username, email },
                )
            },
            old(self)@.len() >= MAX_RECORDS ==> r.is_none() && final(self)@ == old(self)@,
            users_numbered(final(self)@),
    {
        proof { use_type_invariant(&*self); }
        let n = self.users.len();
        if n >= MAX_RECORDS {
            return None;
        }
        let id = (n + 1) as u32;
        let mut users = Vec::new();
        std::mem::swap(&mut users, &mut self.users);
        users.push(User { id, username, email });
        self.users = users;
        Some(id)
    }
}

impl PostList {
    #[verifier::type_invariant]
    spec fn inv(self) -> bool {
        &&& posts_numbered(self.posts@)
        &&& self.posts@.len() <= MAX_RECORDS
    }

    /// An empty list.
    pub fn new() -> (r: PostList)
        ensures
            r@ == Seq::<Post>::empty(),
            posts_numbered(r@),
    {
        PostList { posts: Vec::new() }
    }

    /// The number of posts created so far.
    pub fn len(&self) -> (r: usize)
        ensures
            r == self@.len(),
            posts_numbered(self@),
    {
        proof { use_type_invariant(self); }
        self.posts.len()
    }

    /// The post at position `i`, if there is one.
    pub fn get(&self, i: usize) -> (r: Option<&Post>)
        ensures
            i < self@.len() ==> r == Some(&self@[i as int]),
            i >= self@.len() ==> r.is_none(),
    {
        if i < self.posts.len() {
            Some(&self.posts[i])
        } else {
            None
        }
    }

    /// Appends a post with the next id (the number of posts so far plus one)
    /// and returns that id. `user_id` is taken as given. When every `u32` id
    /// is taken, nothing changes and the result is `None`.
    pub fn create_post(&mut self, user_id: u32, content: String) -> (r: Option<u32>)
        ensures
            old(self)@.len() < MAX_RECORDS ==> {
                &&& r == Some((old(self)@.len() + 1) as u32)
                &&& final(self)@ == old(self)@.push(
                    Post { id: (old(self)@.len() + 1) as u32, user_id, content },
                )
            },
            old(self)@.len() >= MAX_RECORDS ==> r.is_none() && final(self)@ == old(self)@,
            posts_numbered(final(self)@),
    {
        proof { use_type_invariant(&*self); }
        let n = self.posts.len();
        if n >= MAX_RECORDS {
            return None;
        }
        let id = (n + 1) as u32;
        let mut posts = Vec::new();
        std::mem::swap(&mut posts, &mut self.posts);
        posts.push(Post { id, user_id, content });
        self.posts = posts;
        Some(id)
    }
}

/// Ids in a numbered list are pairwise distinct: no two posts share an id,
/// however the calls that created them were interleaved, since each call holds
/// the list alone while it appends.
pub proof fn lemma_post_ids_distinct(s: Seq<Post>)
    requires
        posts_numbered(s),
    ensures
        forall|i: int, j: int|
            0 <= i < s.len() && 0 <= j < s.len() && i != j ==> #[trigger] s[i].id != #[trigger] s[j].id,
{
    assert forall|i: int, j: int|
        0 <= i < s.len() && 0 <= j < s.len() && i != j implies #[trigger] s[i].id != #[trigger] s[j].id by {
        assert(s[i].id == i + 1);
        assert(s[j].id == j + 1);
    }
}

/// Ids in a numbered list of users are pairwise distinct.
pub proof fn lemma_user_ids_distinct(s: Seq<User>)
    requires
        users_numbered(s),
    ensures
        forall|i: int, j: int|
            0 <= i < s.len() && 0 <= j < s.len() && i != j ==> #[trigger] s[i].id != #[trigger] s[j].id,
{
    assert forall|i: int, j: int|
        0 <= i < s.len() && 0 <= j < s.len() && i != j implies #[trigger] s[i].id != #[trigger] s[j].id by {
        assert(s[i].id == i + 1);
        assert(s[j].id == j + 1);
    }
}

} // verus!
