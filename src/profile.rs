//! The profile record, its layout as the members of a JSON object, and the
//! way such an object is read back into a record.
use vstd::prelude::*;
use crate::json::{JsonScalar, ScalarView, entries_view, fields_view};

verus! {

/// The one record the store holds: a required handle and optional
/// descriptive fields.
#[derive(Clone, Debug, PartialEq, Eq)]
pub struct Profile {
    pub alternate_name: String,
    pub first_name: Option<String>,
    pub last_name: Option<String>,
    pub company_name: Option<String>,
    pub website: Option<String>,
    pub image_url: Option<String>,
}

/// What a `Profile` holds, field for field.
pub struct ProfileView {
    pub alternate_name: Seq<char>,
    pub first_name: Option<Seq<char>>,
    pub last_name: Option<Seq<char>>,
    pub company_name: Option<Seq<char>>,
    pub website: Option<Seq<char>>,
    pub image_url: Option<Seq<char>>,
}

pub open spec fn opt_view(o: Option<String>) -> Option<Seq<char>> {
    match o {
        Some(s) => Some(s@),
        None => None,
    }
}

impl View for Profile {
    type V = ProfileView;

    open spec fn view(&self) -> ProfileView {
        ProfileView {
            alternate_name: self.alternate_name@,
            first_name: opt_view(self.first_name),
            last_name: opt_view(self.last_name),
            company_name: opt_view(self.company_name),
            website: opt_view(self.website),
            image_url: opt_view(self.image_url),
        }
    }
}

pub open spec fn key_alternate_name() -> Seq<char> {
    "alternate_name"@
}

pub open spec fn key_first_name() -> Seq<char> {
    "first_name"@
}

pub open spec fn key_last_name() -> Seq<char> {
    "last_name"@
}

pub open spec fn key_company_name() -> Seq<char> {
    "company_name"@
}

pub open spec fn key_website() -> Seq<char> {
    "website"@
}

pub open spec fn key_image_url() -> Seq<char> {
    "image_url"@
}

/// The member for an optional field: one where it is set, none where absent.
pub open spec fn optional_field(key: Seq<char>, v: Option<Seq<char>>) -> Seq<(Seq<char>, Seq<char>)> {
    match v {
        Some(s) => seq![(key, s)],
        None => Seq::empty(),
    }
}

/// The members of the JSON object that holds `p`, in field order; absent
/// optional fields are left out.
pub open spec fn profile_fields(p: ProfileView) -> Seq<(Seq<char>, Seq<char>)> {
    seq![(key_alternate_name(), p.alternate_name)]
        + optional_field(key_first_name(), p.first_name)
        + optional_field(key_last_name(), p.last_name)
        + optional_field(key_company_name(), p.company_name)
        + optional_field(key_website(), p.website)
        + optional_field(key_image_url(), p.image_url)
}

/// The value of the first member named `key`, if any.
pub open spec fn lookup(es: Seq<(Seq<char>, ScalarView)>, key: Seq<char>) -> Option<ScalarView>
    decreases es.len(),
{
    if es.len() == 0 {
        None
    } else if es[0].0 == key {
        Some(es[0].1)
    } else {
        lookup(es.drop_first(), key)
    }
}

/// A required string member: present and a JSON string.
pub open spec fn required_text(v: Option<ScalarView>) -> Option<Seq<char>> {
    match v {
        Some(ScalarView::Text(s)) => Some(s),
        _ => None,
    }
}

/// An optional string member: missing or null is absent, a string is set,
/// anything else makes the record unreadable (`None`).
pub open spec fn optional_text(v: Option<ScalarView>) -> Option<Option<Seq<char>>> {
    match v {
        None => Some(None),
        Some(ScalarView::Null) => Some(None),
        Some(ScalarView::Text(s)) => Some(Some(s)),
        Some(ScalarView::Other) => None,
    }
}

/// The record that the members `es` of a JSON object describe, or `None`
/// where they describe none. Members with other names are ignored.
pub open spec fn profile_from_entries(es: Seq<(Seq<char>, ScalarView)>) -> Option<ProfileView> {
    let a = required_text(lookup(es, key_alternate_name()));
    let f = optional_text(lookup(es, key_first_name()));
    let l = optional_text(lookup(es, key_last_name()));
    let c = optional_text(lookup(es, key_company_name()));
    let w = optional_text(lookup(es, key_website()));
    let i = optional_text(lookup(es, key_image_url()));
    if a is Some && f is Some && l is Some && c is Some && w is Some && i is Some {
        Some(
            ProfileView {
                alternate_name: a->Some_0,
                first_name: f->Some_0,
                last_name: l->Some_0,
                company_name: c->Some_0,
                website: w->Some_0,
                image_url: i->Some_0,
            },
        )
    } else {
        None
    }
}

/// String members as they read back: each value a JSON string.
pub open spec fn as_scalars(fields: Seq<(Seq<char>, Seq<char>)>) -> Seq<(Seq<char>, ScalarView)> {
    fields.map_values(|f: (Seq<char>, Seq<char>)| (f.0, ScalarView::Text(f.1)))
}

pub broadcast proof fn lemma_lookup_append(
    a: Seq<(Seq<char>, ScalarView)>,
    b: Seq<(Seq<char>, ScalarView)>,
    key: Seq<char>,
)
    ensures
        #[trigger] lookup(a + b, key) == (if lookup(a, key) is Some {
            lookup(a, key)
        } else {
            lookup(b, key)
        }),
    decreases a.len(),
{
    if a.len() > 0 {
        assert((a + b).drop_first() =~= a.drop_first() + b);
        lemma_lookup_append(a.drop_first(), b, key);
    } else {
        assert(a + b =~= b);
    }
}

pub broadcast proof fn lemma_as_scalars_append(
    a: Seq<(Seq<char>, Seq<char>)>,
    b: Seq<(Seq<char>, Seq<char>)>,
)
    ensures
        #[trigger] as_scalars(a + b) == as_scalars(a) + as_scalars(b),
{
    assert(as_scalars(a + b) =~= as_scalars(a) + as_scalars(b));
}

proof fn lemma_lookup_one_field(key: Seq<char>, v: Option<Seq<char>>)
    ensures
        forall|k: Seq<char>|
            #[trigger] lookup(as_scalars(optional_field(key, v)), k) == (if v is Some && key == k {
                Some(ScalarView::Text(v->Some_0))
            } else {
                None
            }),
{
    let s = as_scalars(optional_field(key, v));
    assert forall|k: Seq<char>|
        #[trigger] lookup(s, k) == (if v is Some && key == k {
            Some(ScalarView::Text(v->Some_0))
        } else {
            None
        }) by {
        if v is Some {
            assert(s.len() == 1);
            assert(s[0] == (key, ScalarView::Text(v->Some_0)));
            assert(lookup(s.drop_first(), k) is None);
        } else {
            assert(s.len() == 0);
        }
    }
}

proof fn lemma_keys_distinct()
    ensures
        key_alternate_name() != key_first_name(),
        key_alternate_name() != key_last_name(),
        key_alternate_name() != key_company_name(),
        key_alternate_name() != key_website(),
        key_alternate_name() != key_image_url(),
        key_first_name() != key_last_name(),
        key_first_name() != key_company_name(),
        key_first_name() != key_website(),
        key_first_name() != key_image_url(),
        key_last_name() != key_company_name(),
        key_last_name() != key_website(),
        key_last_name() != key_image_url(),
        key_company_name() != key_website(),
        key_company_name() != key_image_url(),
        key_website() != key_image_url(),
{
    reveal_strlit("alternate_name");
    reveal_strlit("first_name");
    reveal_strlit("last_name");
    reveal_strlit("company_name");
    reveal_strlit("website");
    reveal_strlit("image_url");
    assert(key_alternate_name().len() == 14);
    assert(key_first_name().len() == 10);
    assert(key_last_name().len() == 9);
    assert(key_company_name().len() == 12);
    assert(key_website().len() == 7);
    assert(key_image_url().len() == 9);
    assert(key_last_name()[0] != key_image_url()[0]);
}

/// Reading back the members that a record is written as gives that record:
/// the layout loses nothing and invents nothing.
pub proof fn lemma_fields_round_trip(p: ProfileView)
    ensures
        profile_from_entries(as_scalars(profile_fields(p))) == Some(p),
{
    lemma_keys_distinct();
    let head: Seq<(Seq<char>, Seq<char>)> = seq![(key_alternate_name(), p.alternate_name)];
    let f1 = optional_field(key_first_name(), p.first_name);
    let f2 = optional_field(key_last_name(), p.last_name);
    let f3 = optional_field(key_company_name(), p.company_name);
    let f4 = optional_field(key_website(), p.website);
    let f5 = optional_field(key_image_url(), p.image_url);
    let q0 = as_scalars(head);
    let q1 = as_scalars(f1);
    let q2 = as_scalars(f2);
    let q3 = as_scalars(f3);
    let q4 = as_scalars(f4);
    let q5 = as_scalars(f5);
    lemma_as_scalars_append(head, f1);
    lemma_as_scalars_append(head + f1, f2);
    lemma_as_scalars_append(head + f1 + f2, f3);
    lemma_as_scalars_append(head + f1 + f2 + f3, f4);
    lemma_as_scalars_append(head + f1 + f2 + f3 + f4, f5);
    let all = q0 + q1 + q2 + q3 + q4 + q5;
    assert(as_scalars(profile_fields(p)) == all);
    assert(q0.drop_first().len() == 0);
    assert(q0.len() == 1);
    assert(q0[0] == (key_alternate_name(), ScalarView::Text(p.alternate_name)));
    lemma_lookup_one_field(key_alternate_name(), Some(p.alternate_name));
    assert(q0 == as_scalars(optional_field(key_alternate_name(), Some(p.alternate_name))));
    lemma_lookup_one_field(key_first_name(), p.first_name);
    lemma_lookup_one_field(key_last_name(), p.last_name);
    lemma_lookup_one_field(key_company_name(), p.company_name);
    lemma_lookup_one_field(key_website(), p.website);
    lemma_lookup_one_field(key_image_url(), p.image_url);
    lemma_lookup_chain(q0, q1, q2, q3, q4, q5, key_alternate_name());
    lemma_lookup_chain(q0, q1, q2, q3, q4, q5, key_first_name());
    lemma_lookup_chain(q0, q1, q2, q3, q4, q5, key_last_name());
    lemma_lookup_chain(q0, q1, q2, q3, q4, q5, key_company_name());
    lemma_lookup_chain(q0, q1, q2, q3, q4, q5, key_website());
    lemma_lookup_chain(q0, q1, q2, q3, q4, q5, key_image_url());
}

/// A lookup in six consecutive runs of members finds the first run that
/// holds the name.
proof fn lemma_lookup_chain(
    q0: Seq<(Seq<char>, ScalarView)>,
    q1: Seq<(Seq<char>, ScalarView)>,
    q2: Seq<(Seq<char>, ScalarView)>,
    q3: Seq<(Seq<char>, ScalarView)>,
    q4: Seq<(Seq<char>, ScalarView)>,
    q5: Seq<(Seq<char>, ScalarView)>,
    k: Seq<char>,
)
    ensures
        lookup(q0 + q1 + q2 + q3 + q4 + q5, k) == (if lookup(q0, k) is Some {
            lookup(q0, k)
        } else if lookup(q1, k) is Some {
            lookup(q1, k)
        } else if lookup(q2, k) is Some {
            lookup(q2, k)
        } else if lookup(q3, k) is Some {
            lookup(q3, k)
        } else if lookup(q4, k) is Some {
            lookup(q4, k)
        } else {
            lookup(q5, k)
        }),
{
    lemma_lookup_append(q0, q1, k);
    lemma_lookup_append(q0 + q1, q2, k);
    lemma_lookup_append(q0 + q1 + q2, q3, k);
    lemma_lookup_append(q0 + q1 + q2 + q3, q4, k);
    lemma_lookup_append(q0 + q1 + q2 + q3 + q4, q5, k);
}

pub open spec fn opt_profile_view(o: Option<Profile>) -> Option<ProfileView> {
    match o {
        Some(p) => Some(p@),
        None => None,
    }
}

fn copy_text(o: &Option<String>) -> (r: Option<String>)
    ensures
        opt_view(r) == opt_view(*o),
{
    match o {
        Some(s) => Some(s.clone()),
        None => None,
    }
}

/// Appends the member for an optional field where it is set.
fn push_optional(fields: &mut Vec<(String, String)>, key: &str, v: &Option<String>)
    ensures
        fields_view(final(fields)@) == fields_view(old(fields)@) + optional_field(key@, opt_view(*v)),
{
    let ghost before = fields@;
    if let Some(s) = v {
        fields.push((key.to_owned(), s.clone()));
        assert(fields_view(fields@) =~= fields_view(before) + optional_field(key@, opt_view(*v)));
    } else {
        assert(fields_view(fields@) =~= fields_view(before) + optional_field(key@, opt_view(*v)));
    }
}

/// The first member of `es` named `key`.
fn find_entry<'a>(es: &'a Vec<(String, JsonScalar)>, key: &String) -> (r: Option<&'a JsonScalar>)
    ensures
        lookup(entries_view(es@), key@) == (match r {
            Some(v) => Some(v@),
            None => None,
        }),
{
    let ghost all = entries_view(es@);
    let mut i: usize = 0;
    assert(all.subrange(0, all.len() as int) =~= all);
    while i < es.len()
        invariant
            i <= es.len(),
            all == entries_view(es@),
            lookup(all, key@) == lookup(all.subrange(i as int, all.len() as int), key@),
        decreases es.len() - i,
    {
        let ghost rest = all.subrange(i as int, all.len() as int);
        assert(rest[0] == (es@[i as int].0@, es@[i as int].1@));
        if es[i].0 == *key {
            return Some(&es[i].1);
        }
        assert(rest.drop_first() =~= all.subrange(i + 1, all.len() as int));
        i = i + 1;
    }
    assert(all.subrange(i as int, all.len() as int).len() == 0);
    None
}

fn required_member(v: Option<&JsonScalar>) -> (r: Option<String>)
    ensures
        opt_view(r) == required_text(match v {
            Some(x) => Some(x@),
            None => None,
        }),
{
    match v {
        Some(JsonScalar::Text(s)) => Some(s.clone()),
        _ => None,
    }
}

fn optional_member(v: Option<&JsonScalar>) -> (r: Option<Option<String>>)
    ensures
        match r {
            Some(o) => Some(opt_view(o)),
            None => None,
        } == optional_text(match v {
            Some(x) => Some(x@),
            None => None,
        }),
{
    match v {
        None => Some(None),
        Some(JsonScalar::Null) => Some(None),
        Some(JsonScalar::Text(s)) => Some(Some(s.clone())),
        Some(JsonScalar::Other) => None,
    }
}

impl Profile {
    /// A copy of this record, field for field.
    pub fn duplicate(&self) -> (r: Profile)
        ensures
            r@ == self@,
    {
        Profile {
            alternate_name: self.alternate_name.clone(),
            first_name: copy_text(&self.first_name),
            last_name: copy_text(&self.last_name),
            company_name: copy_text(&self.company_name),
            website: copy_text(&self.website),
            image_url: copy_text(&self.image_url),
        }
    }

    /// The members of the JSON object that holds this record.
    pub fn to_fields(&self) -> (r: Vec<(String, String)>)
        ensures
            fields_view(r@) == profile_fields(self@),
    {
        let mut fields: Vec<(String, String)> = Vec::new();
        fields.push(("alternate_name".to_owned(), self.alternate_name.clone()));
        assert(fields_view(fields@) =~= seq![(key_alternate_name(), self.alternate_name@)]);
        push_optional(&mut fields, "first_name", &self.first_name);
        push_optional(&mut fields, "last_name", &self.last_name);
        push_optional(&mut fields, "company_name", &self.company_name);
        push_optional(&mut fields, "website", &self.website);
        push_optional(&mut fields, "image_url", &self.image_url);
        fields
    }

    /// The record that the members `es` of a JSON object describe, if any.
    pub fn from_entries(es: &Vec<(String, JsonScalar)>) -> (r: Option<Profile>)
        ensures
            opt_profile_view(r) == profile_from_entries(entries_view(es@)),
    {
        let a = required_member(find_entry(es, &"alternate_name".to_owned()));
        let f = optional_member(find_entry(es, &"first_name".to_owned()));
        let l = optional_member(find_entry(es, &"last_name".to_owned()));
        let c = optional_member(find_entry(es, &"company_name".to_owned()));
        let w = optional_member(find_entry(es, &"website".to_owned()));
        let i = optional_member(find_entry(es, &"image_url".to_owned()));
        match (a, f, l, c, w, i) {
            (Some(a), Some(f), Some(l), Some(c), Some(w), Some(i)) => Some(
                Profile {
                    alternate_name: a,
                    first_name: f,
                    last_name: l,
                    company_name: c,
                    website: w,
                    image_url: i,
                },
            ),
            _ => None,
        }
    }
}

} // verus!
