//! The record store: at most one profile, held in memory, together with the
//! text that its backing file must hold after each change.
//!
//! Every change takes `&mut self`, so a store shared between tasks sits behind
//! a lock and changes are applied one at a time; the laws below speak of any
//! order in which the lock lets them through.
use vstd::prelude::*;
use crate::json::{encode_object, object_entries, parse_object, pretty_object};
use crate::profile::{
    Profile, ProfileView, as_scalars, lemma_fields_round_trip, lookup, opt_profile_view,
    profile_fields, profile_from_entries,
};

verus! {

/// What a store holds: the record, if any, where its file lives, and the
/// text of that file (`None`: no file) once the file operation that goes
/// with the last change has been carried out.
pub struct StoreView {
    pub profile: Option<ProfileView>,
    pub file_path: Seq<char>,
    pub file: Option<Seq<char>>,
}

/// The store. A change first updates the record in memory and then hands
/// back what the backing file must become; a failed write of that file
/// leaves memory ahead of the disk until the next successful change.
pub struct ProfileManager {
    profile: Option<Profile>,
    file_path: String,
    file: Ghost<Option<Seq<char>>>,
}

impl View for ProfileManager {
    type V = StoreView;

    closed spec fn view(&self) -> StoreView {
        StoreView {
            profile: opt_profile_view(self.profile),
            file_path: self.file_path@,
            file: self.file@,
        }
    }
}

/// The text of a backing file that holds `p`: a pretty-printed JSON object
/// whose members come in alphabetical order of their names, as serde_json's
/// map keeps them.
pub open spec fn profile_text(p: ProfileView) -> Seq<char> {
    pretty_object(profile_fields(p))
}

/// The record read from a backing file with `contents` (`None`: no file).
/// A file that is not a JSON object of a record reads as no record.
pub open spec fn loaded(contents: Option<Seq<char>>) -> Option<ProfileView> {
    match contents {
        None => None,
        Some(t) => match object_entries(t) {
            None => None,
            Some(es) => profile_from_entries(es),
        },
    }
}

/// The store after `p` replaces whatever it held, its file rewritten.
pub open spec fn after_put(s: StoreView, p: ProfileView) -> StoreView {
    StoreView { profile: Some(p), file: Some(profile_text(p)), ..s }
}

/// The store after its record is removed, its file with it.
pub open spec fn after_delete(s: StoreView) -> StoreView {
    StoreView { profile: None, file: None, ..s }
}

/// The store after the puts of `ps`, in that order.
pub open spec fn after_puts(s: StoreView, ps: Seq<ProfileView>) -> StoreView
    decreases ps.len(),
{
    if ps.len() == 0 {
        s
    } else {
        after_put(after_puts(s, ps.drop_last()), ps.last())
    }
}

pub open spec fn str_opt_view(o: Option<&str>) -> Option<Seq<char>> {
    match o {
        Some(t) => Some(t@),
        None => None,
    }
}

impl ProfileManager {
    /// A store for the file at `file_path`, whose text is `contents`, or
    /// `None` where there is no such file. Contents that do not hold a record
    /// leave the store empty; this never fails.
    pub fn new(file_path: &str, contents: Option<&str>) -> (r: ProfileManager)
        ensures
            r@.file_path == file_path@,
            r@.file == str_opt_view(contents),
            r@.profile == loaded(str_opt_view(contents)),
            contents is None ==> r@.profile is None,
            contents matches Some(t) && object_entries(t@) is None ==> r@.profile is None,
    {
        let profile = match contents {
            None => None,
            Some(t) => match parse_object(t) {
                None => None,
                Some(es) => Profile::from_entries(&es),
            },
        };
        ProfileManager {
            profile,
            file_path: file_path.to_owned(),
            file: Ghost(str_opt_view(contents)),
        }
    }

    /// Where the backing file lives.
    pub fn file_path(&self) -> (r: &str)
        ensures
            r@ == self@.file_path,
    {
        self.file_path.as_str()
    }

    /// Replaces the record with `profile`, whether or not one was held, and
    /// returns the text that the backing file must now hold. This cannot
    /// fail: string members always encode.
    pub fn save(&mut self, profile: Profile) -> (r: String)
        ensures
            final(self)@ == after_put(old(self)@, profile@),
            r@ == profile_text(profile@),
    {
        let encoded = encode_object(&profile.to_fields());
        self.profile = Some(profile);
        self.file = Ghost(Some(encoded->Some_0@));
        encoded.unwrap()
    }

    /// A copy of the record, if one is held.
    pub fn get(&self) -> (r: Option<Profile>)
        ensures
            opt_profile_view(r) == self@.profile,
    {
        match &self.profile {
            Some(p) => Some(p.duplicate()),
            None => None,
        }
    }

    /// Removes the record; the backing file is to be removed with it, and
    /// a missing file is no error.
    pub fn delete(&mut self)
        ensures
            final(self)@ == after_delete(old(self)@),
    {
        self.profile = None;
        self.file = Ghost(None);
    }
}

/// A store that was never written to, with no backing file, holds nothing.
pub proof fn lemma_absent_before_creation()
    ensures
        loaded(None) is None,
{
}

/// A put followed by a get yields the record that was put.
pub proof fn lemma_put_then_get(s: StoreView, p: ProfileView)
    ensures
        after_put(s, p).profile == Some(p),
{
}

/// A second put replaces the first wholesale: nothing of the first is kept.
pub proof fn lemma_overwrite_wins(s: StoreView, p1: ProfileView, p2: ProfileView)
    ensures
        after_put(after_put(s, p1), p2) == after_put(s, p2),
        after_put(after_put(s, p1), p2).profile == Some(p2),
{
}

/// A put followed by a delete leaves the store empty and its backing file
/// gone.
pub proof fn lemma_delete_clears(s: StoreView, p: ProfileView)
    ensures
        after_delete(after_put(s, p)).profile is None,
        after_delete(after_put(s, p)).file is None,
{
}

/// However the lock orders a run of puts, the store ends holding exactly one
/// of the records put, whole: the one that went last. Its backing file holds
/// the text of that same record, and its file path stays.
pub proof fn lemma_serialized_puts(s: StoreView, ps: Seq<ProfileView>)
    requires
        ps.len() > 0,
    ensures
        after_puts(s, ps).profile == Some(ps.last()),
        after_puts(s, ps).file == Some(profile_text(ps.last())),
        exists|i: int|
            0 <= i < ps.len() && after_puts(s, ps).profile == Some(#[trigger] ps[i])
                && after_puts(s, ps).file == Some(profile_text(ps[i])),
        after_puts(s, ps).file_path == s.file_path,
{
    assert(after_puts(s, ps).profile == Some(ps[ps.len() - 1]));
    lemma_puts_keep_path(s, ps);
}

proof fn lemma_puts_keep_path(s: StoreView, ps: Seq<ProfileView>)
    ensures
        after_puts(s, ps).file_path == s.file_path,
    decreases ps.len(),
{
    if ps.len() > 0 {
        lemma_puts_keep_path(s, ps.drop_last());
    }
}

/// A fresh store loaded from the backing file that a put of `p` left holds
/// `p` again, wherever that JSON text reads back as members that agree, name
/// for name, with the members it was written from.
pub proof fn lemma_reload_after_put(s: StoreView, p: ProfileView)
    requires
        object_entries(profile_text(p)) matches Some(es) && forall|k: Seq<char>|
            #[trigger] lookup(es, k) == lookup(as_scalars(profile_fields(p)), k),
    ensures
        loaded(after_put(s, p).file) == Some(p),
{
    lemma_fields_round_trip(p);
    let es = object_entries(profile_text(p))->Some_0;
    assert(profile_from_entries(es) == profile_from_entries(as_scalars(profile_fields(p))));
}

/// A backing file that is not a JSON object loads as an empty store.
pub proof fn lemma_corrupt_file_is_absent(t: Seq<char>)
    requires
        object_entries(t) is None,
    ensures
        loaded(Some(t)) is None,
{
}

} // verus!
