use vstd::prelude::*;
use vstd::string::*;

verus! {

/// Where a post stands in its life: it is created `Pending` and becomes
/// `Published` once, after the external network accepted it.
#[derive(Clone, Copy, Debug, PartialEq, Eq, Structural)]
pub enum Status {
    Pending,
    Published,
}

/// Whether two texts hold the same characters.
pub fn same_text(a: &str, b: &str) -> (r: bool)
    ensures
        r == (a@ == b@),
{
    let n = a.unicode_len();
    if n != b.unicode_len() {
        return false;
    }
    let mut i: usize = 0;
    while i < n
        invariant
            n == a@.len(),
            n == b@.len(),
            i <= n,
            a@.take(i as int) == b@.take(i as int),
        decreases n - i,
    {
        if a.get_char(i) != b.get_char(i) {
            return false;
        }
        proof {
            assert(a@.take(i + 1) =~= a@.take(i as int).push(a@[i as int]));
            assert(b@.take(i + 1) =~= b@.take(i as int).push(b@[i as int]));
        }
        i = i + 1;
    }
    proof {
        assert(a@.take(n as int) =~= a@);
        assert(b@.take(n as int) =~= b@);
    }
    true
}

/// The stored name of a status.
pub open spec fn status_name(s: Status) -> Seq<char> {
    match s {
        Status::Pending => "pending"@,
        Status::Published => "published"@,
    }
}

/// The name a post gets when the client gives none.
pub fn default_status() -> (r: String)
    ensures
        r@ == "pending"@,
{
    String::from_str("pending")
}

impl Status {
    /// The status whose stored name is `name`.
    pub fn parse(name: &str) -> (r: Option<Status>)
        ensures
            r == (if name@ == "pending"@ {
                Some(Status::Pending)
            } else if name@ == "published"@ {
                Some(Status::Published)
            } else {
                None::<Status>
            }),
    {
        if same_text(name, "pending") {
            Some(Status::Pending)
        } else if same_text(name, "published") {
            Some(Status::Published)
        } else {
            None
        }
    }

    /// The stored name of this status.
    pub fn name(&self) -> (r: &'static str)
        ensures
            r@ == status_name(*self),
    {
        match self {
            Status::Pending => "pending",
            Status::Published => "published",
        }
    }
}

/// One post as the store holds it, without its identifier.
pub struct Post {
    pub title: String,
    pub content: String,
    /// The instant before which the post is not published, in milliseconds
    /// since the Unix epoch.
    pub scheduled_time: i64,
    pub status: Status,
}

impl Post {
    /// A copy of the post, equal to it.
    pub fn duplicate(&self) -> (r: Post)
        ensures
            r == *self,
    {
        Post {
            title: self.title.clone(),
            content: self.content.clone(),
            scheduled_time: self.scheduled_time,
            status: self.status,
        }
    }

    /// The post that a stored document describes, with the defaults that a
    /// document missing its title or content gets: "Untitled" and "No content
    /// provided". A document without a scheduled time describes no post
    /// (`None`): it is never taken as due at some guessed time.
    pub fn from_stored(
        title: Option<String>,
        content: Option<String>,
        scheduled_time: Option<i64>,
        status: Status,
    ) -> (r: Option<Post>)
        ensures
            scheduled_time is None ==> r is None,
            scheduled_time matches Some(t) ==> (r matches Some(p) && p.scheduled_time == t
                && p.status == status
                && p.title@ == (match title {
                Some(t) => t@,
                None => "Untitled"@,
            }) && p.content@ == (match content {
                Some(c) => c@,
                None => "No content provided"@,
            })),
    {
        let scheduled_time = match scheduled_time {
            Some(t) => t,
            None => {
                return None;
            },
        };
        let title = match title {
            Some(t) => t,
            None => String::from_str("Untitled"),
        };
        let content = match content {
            Some(c) => c,
            None => String::from_str("No content provided"),
        };
        Some(Post { title, content, scheduled_time, status })
    }
}

} // verus!
