//! The invocation environment and the resolution of named bindings.

use crate::certificate::MtlsCertificate;
use vstd::prelude::*;

verus! {

/// What a host object is to the logic: the identity the host gave it and
/// the type name it carries intrinsically.
pub struct ObjectModel {
    pub id: u64,
    pub type_tag: Seq<char>,
}

/// A reference to an object that lives in the host. `id` identifies the
/// object itself; `type_tag` is the name of its host-side type.
#[derive(Debug, PartialEq, Eq)]
pub struct HostObject {
    pub id: u64,
    pub type_tag: String,
}

impl View for HostObject {
    type V = ObjectModel;

    open spec fn view(&self) -> ObjectModel {
        ObjectModel { id: self.id, type_tag: self.type_tag@ }
    }
}

impl HostObject {
    /// The reference to the object `id`, whose host type is `type_tag`.
    pub fn new(id: u64, type_tag: &str) -> (r: HostObject)
        ensures
            r@ == (ObjectModel { id: id, type_tag: type_tag@ }),
    {
        HostObject { id, type_tag: type_tag.to_owned() }
    }
}

impl Clone for HostObject {
    /// Another reference to the same host object.
    fn clone(&self) -> (r: HostObject)
        ensures
            r@ == self@,
    {
        HostObject { id: self.id, type_tag: self.type_tag.clone() }
    }
}

/// The binding that a name denotes in a list of entries: the last entry
/// under that name, so that a later binding shadows an earlier one.
pub open spec fn lookup_entries(entries: Seq<(Seq<char>, ObjectModel)>, name: Seq<char>) -> Option<
    ObjectModel,
>
    decreases entries.len(),
{
    if entries.len() == 0 {
        None
    } else if entries.last().0 == name {
        Some(entries.last().1)
    } else {
        lookup_entries(entries.drop_last(), name)
    }
}

/// The read-only mapping from binding names to host objects that the host
/// supplies to one invocation.
#[derive(Debug)]
pub struct Environment {
    entries: Vec<(String, HostObject)>,
}

impl Environment {
    pub closed spec fn entries_view(&self) -> Seq<(Seq<char>, ObjectModel)> {
        self.entries@.map_values(|e: (String, HostObject)| (e.0@, e.1@))
    }

    pub open spec fn view(&self) -> Map<Seq<char>, ObjectModel> {
        Map::new(
            |n: Seq<char>| lookup_entries(self.entries_view(), n) is Some,
            |n: Seq<char>| lookup_entries(self.entries_view(), n)->Some_0,
        )
    }

    /// An environment with no bindings.
    pub fn new() -> (r: Environment)
        ensures
            r@ == Map::<Seq<char>, ObjectModel>::empty(),
    {
        let r = Environment { entries: Vec::new() };
        assert(r.entries_view() =~= Seq::<(Seq<char>, ObjectModel)>::empty());
        assert(r@ =~= Map::<Seq<char>, ObjectModel>::empty());
        r
    }

    /// Binds `name` to `object`, replacing what the name was bound to.
    pub fn bind(&mut self, name: &str, object: HostObject)
        ensures
            final(self)@ == old(self)@.insert(name@, object@),
    {
        let ghost before = self.entries_view();
        self.entries.push((name.to_owned(), object));
        let ghost after = self.entries_view();
        assert(after.drop_last() =~= before);
        assert forall|n: Seq<char>| #[trigger]
            lookup_entries(after, n) == if n == name@ {
                Some(object@)
            } else {
                lookup_entries(before, n)
            } by {}
        assert(self@ =~= old(self)@.insert(name@, object@));
    }

    /// The object bound to `name`, if any.
    pub fn get(&self, name: &str) -> (r: Option<&HostObject>)
        ensures
            match r {
                Some(o) => self@.contains_key(name@) && o@ == self@[name@],
                None => !self@.contains_key(name@),
            },
    {
        let key = name.to_owned();
        let mut i: usize = self.entries.len();
        assert(self.entries_view().take(i as int) =~= self.entries_view());
        while i > 0
            invariant
                i <= self.entries@.len(),
                key@ == name@,
                lookup_entries(self.entries_view(), name@) == lookup_entries(
                    self.entries_view().take(i as int),
                    name@,
                ),
            decreases i,
        {
            let ghost pre = self.entries_view().take(i as int);
            assert(pre.drop_last() =~= self.entries_view().take(i - 1));
            assert(pre.last() == self.entries_view()[i - 1]);
            if self.entries[i - 1].0 == key {
                return Some(&self.entries[i - 1].1);
            }
            i = i - 1;
        }
        assert(self.entries_view().take(0) =~= Seq::<(Seq<char>, ObjectModel)>::empty());
        None
    }
}

/// Failure to resolve a named binding.
#[derive(Debug, PartialEq, Eq)]
pub enum BindingError {
    /// No binding of that name exists.
    BindingMissing(String),
    /// The binding exists but its object is not of the requested type:
    /// the name, then the requested type name.
    BindingTypeMismatch(String, String),
}

/// Whether an object is an instance of the host type named `type_tag`.
pub open spec fn instance_of(object: ObjectModel, type_tag: Seq<char>) -> bool {
    object.type_tag == type_tag
}

/// The object a successful resolution of `name` as `type_tag` yields in
/// `env`: the bound object, when there is one and it has that type.
pub open spec fn resolved(env: Map<Seq<char>, ObjectModel>, name: Seq<char>, type_tag: Seq<char>) -> Option<
    ObjectModel,
> {
    if env.contains_key(name) && instance_of(env[name], type_tag) {
        Some(env[name])
    } else {
        None
    }
}

/// Whether `object` is an instance of the host type named `type_tag`.
///
/// The type name is the host-visible shape of the object, not the meaning
/// the caller gives it: several capabilities may share one name.
pub fn is_instance(object: &HostObject, type_tag: &str) -> (r: bool)
    ensures
        r == instance_of(object@, type_tag@),
{
    object.type_tag == type_tag.to_owned()
}

/// Looks `name` up in `env`, checks that the object found is of the type
/// named `expected_type_tag`, and hands out a handle to it.
pub fn resolve(env: &Environment, name: &str, expected_type_tag: &str) -> (r: Result<
    MtlsCertificate,
    BindingError,
>)
    requires
        name@.len() > 0,
    ensures
        !env@.contains_key(name@) ==> r is Err && r->Err_0 is BindingMissing,
        env@.contains_key(name@) && !instance_of(env@[name@], expected_type_tag@) ==> r is Err
            && r->Err_0 is BindingTypeMismatch,
        match r {
            Ok(h) => resolved(env@, name@, expected_type_tag@) == Some(h@),
            Err(BindingError::BindingMissing(n)) => !env@.contains_key(name@) && n@ == name@,
            Err(BindingError::BindingTypeMismatch(n, t)) => env@.contains_key(name@)
                && !instance_of(env@[name@], expected_type_tag@) && n@ == name@ && t@
                == expected_type_tag@,
        },
{
    match env.get(name) {
        None => Err(BindingError::BindingMissing(name.to_owned())),
        Some(o) => {
            if is_instance(o, expected_type_tag) {
                Ok(MtlsCertificate::from(o.clone()))
            } else {
                Err(BindingError::BindingTypeMismatch(name.to_owned(), expected_type_tag.to_owned()))
            }
        },
    }
}

} // verus!
