//! Request handling around the store: which requests need the shared secret,
//! what each one does to the store and the backing file, and what status the
//! caller gets back.
use vstd::prelude::*;
use crate::profile::{Profile, ProfileView, opt_profile_view};
use crate::store::{ProfileManager, after_delete, after_put, profile_text};

verus! {

/// A request to the profile resource.
pub enum Request {
    /// Read the record; open to anyone.
    Read,
    /// Store a record where none may exist yet.
    Create(Profile),
    /// Store a record over the current one.
    Update(Profile),
    /// Remove the record.
    Remove,
}

/// What must happen to the backing file before the reply goes out.
#[derive(Debug, PartialEq, Eq)]
pub enum FileOp {
    /// Leave it alone.
    Keep,
    /// Overwrite it with this text.
    Write(String),
    /// Remove it, if it exists.
    Remove,
}

/// The reply to a request.
#[derive(Debug)]
pub enum Reply {
    /// 200 (or 201 after a create) with the stored record.
    Stored { status: u16, profile: Option<Profile> },
    /// 200 after the record was removed.
    Removed,
    /// 404: no record is held.
    NotFound,
    /// 401: a change was asked for without the right credential.
    Unauthorized,
}

pub open spec fn is_change(req: Request) -> bool {
    !(req is Read)
}

pub open spec fn token_view(t: Option<&str>) -> Option<Seq<char>> {
    match t {
        Some(s) => Some(s@),
        None => None,
    }
}

/// Whether the presented bearer credential is exactly the shared secret.
pub open spec fn credential_ok(token: Option<Seq<char>>, secret: Seq<char>) -> bool {
    token == Some(secret)
}

/// Compares a presented bearer credential with the shared secret; a missing
/// credential never matches.
pub fn authorized(token: Option<&str>, secret: &str) -> (r: bool)
    ensures
        r == credential_ok(token_view(token), secret@),
{
    match token {
        None => false,
        // A plain comparison, not a constant-time one.
        Some(t) => t.to_owned() == secret.to_owned(),
    }
}

/// Whether `req` may go through: reads always, changes only with the
/// right credential.
pub open spec fn change_allowed(req: Request, token: Option<Seq<char>>, secret: Seq<char>) -> bool {
    !is_change(req) || credential_ok(token, secret)
}

/// A reply with `status` that carries the record `p`.
pub open spec fn echoes(r: Reply, status: u16, p: ProfileView) -> bool {
    match r {
        Reply::Stored { status: st, profile } => st == status && opt_profile_view(profile) == Some(p),
        _ => false,
    }
}

impl Reply {
    /// The HTTP status of this reply.
    pub fn status(&self) -> (r: u16)
        ensures
            r == match self {
                Reply::Stored { status, .. } => *status,
                Reply::Removed => 200u16,
                Reply::NotFound => 404u16,
                Reply::Unauthorized => 401u16,
            },
    {
        match self {
            Reply::Stored { status, .. } => *status,
            Reply::Removed => 200,
            Reply::NotFound => 404,
            Reply::Unauthorized => 401,
        }
    }
}

/// The reply to a read: the record with 200, or 404 where none is held.
/// Takes the store by shared reference, so reads may run side by side.
pub fn read_reply(store: &ProfileManager) -> (r: Reply)
    ensures
        match store@.profile {
            Some(p) => echoes(r, 200u16, p),
            None => r is NotFound,
        },
{
    match store.get() {
        Some(p) => Reply::Stored { status: 200, profile: Some(p) },
        None => Reply::NotFound,
    }
}

/// Handles one request against the store. A change without the right
/// credential is refused before the store is touched. A stored record is
/// echoed back; the file operation returned is to be carried out before the
/// reply is sent; where it fails, the caller answers 500 instead.
pub fn handle(store: &mut ProfileManager, req: Request, token: Option<&str>, secret: &str) -> (r: (
    Reply,
    FileOp,
))
    ensures
        !change_allowed(req, token_view(token), secret@) ==> {
            &&& final(store)@ == old(store)@
            &&& r.0 is Unauthorized
            &&& r.1 is Keep
        },
        req is Read ==> final(store)@ == old(store)@ && r.1 is Keep && match old(store)@.profile {
            Some(p) => echoes(r.0, 200u16, p),
            None => r.0 is NotFound,
        },
        change_allowed(req, token_view(token), secret@) ==> match req {
            Request::Read => true,
            Request::Create(p) => final(store)@ == after_put(old(store)@, p@) && (r.1 matches FileOp::Write(t)
                && t@ == profile_text(p@) && echoes(r.0, 201u16, p@)),
            Request::Update(p) => final(store)@ == after_put(old(store)@, p@) && (r.1 matches FileOp::Write(t)
                && t@ == profile_text(p@) && echoes(r.0, 200u16, p@)),
            Request::Remove => final(store)@ == after_delete(old(store)@) && r.0 is Removed
                && r.1 is Remove,
        },
{
    let allowed = match req {
        Request::Read => true,
        _ => authorized(token, secret),
    };
    if !allowed {
        return (Reply::Unauthorized, FileOp::Keep);
    }
    match req {
        Request::Read => (read_reply(store), FileOp::Keep),
        Request::Create(p) => {
            let t = store.save(p);
            (Reply::Stored { status: 201, profile: store.get() }, FileOp::Write(t))
        },
        Request::Update(p) => {
            let t = store.save(p);
            (Reply::Stored { status: 200, profile: store.get() }, FileOp::Write(t))
        },
        Request::Remove => {
            store.delete();
            (Reply::Removed, FileOp::Remove)
        },
    }
}

} // verus!
