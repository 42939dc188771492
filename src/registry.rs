//! The table of remotely callable functions, built once at startup and read by the dispatcher.
use vstd::prelude::*;
use crate::config::str_eq;

verus! {

/// Failure to register a function: its name is taken.
#[derive(Clone, Debug, PartialEq, Eq)]
pub struct RegistrationError {
    pub name: String,
}

/// Registered function names in order of registration, each at most once.
pub struct FnRegistry {
    names: Vec<String>,
}

impl View for FnRegistry {
    type V = Seq<Seq<char>>;

    closed spec fn view(&self) -> Seq<Seq<char>> {
        self.names@.map_values(|s: String| s@)
    }
}

/// No name occurs twice.
pub open spec fn names_unique(names: Seq<Seq<char>>) -> bool {
    forall|i: int, j: int| 0 <= i < j < names.len() ==> names[i] != names[j]
}

impl FnRegistry {
    /// The registry is well formed: its names are unique.
    pub open spec fn wf(&self) -> bool {
        names_unique(self@)
    }

    /// An empty registry.
    pub fn new() -> (r: FnRegistry)
        ensures
            r@ == Seq::<Seq<char>>::empty(),
            r.wf(),
    {
        let r = FnRegistry { names: Vec::new() };
        assert(r@ =~= Seq::<Seq<char>>::empty());
        r
    }

    /// Number of registered functions.
    pub fn len(&self) -> (r: usize)
        ensures
            r == self@.len(),
    {
        self.names.len()
    }

    /// Index of the function registered under `name`.
    pub fn lookup(&self, name: &str) -> (r: Option<usize>)
        ensures
            r matches Some(i) ==> i < self@.len() && self@[i as int] == name@,
            r is None ==> !self@.contains(name@),
    {
        let mut i: usize = 0;
        while i < self.names.len()
            invariant
                i <= self.names@.len(),
                self@.len() == self.names@.len(),
                forall|j: int| 0 <= j < i ==> self@[j] != name@,
            decreases self.names@.len() - i,
        {
            proof {
                assert(self@[i as int] == self.names@[i as int]@);
            }
            if str_eq(self.names[i].as_str(), name) {
                return Some(i);
            }
            i = i + 1;
        }
        None
    }

    /// Registers `name`; a name already present is refused and the registry is unchanged.
    pub fn register(&mut self, name: &str) -> (r: Result<(), RegistrationError>)
        requires
            old(self).wf(),
        ensures
            final(self).wf(),
            old(self)@.contains(name@) ==> (r matches Err(e) && e.name@ == name@ && final(self)@
                == old(self)@),
            !old(self)@.contains(name@) ==> (r is Ok && final(self)@ == old(self)@.push(name@)),
    {
        match self.lookup(name) {
            Some(_) => Err(RegistrationError { name: name.to_owned() }),
            None => {
                let ghost before = self@;
                self.names.push(name.to_owned());
                assert(self@ =~= before.push(name@));
                Ok(())
            },
        }
    }
}

/// The registry of this application's callable functions: the user listing alone, under the
/// endpoint name the rendering framework gave it.
pub fn register_server_fns(get_users: &str) -> (r: Result<FnRegistry, RegistrationError>)
    ensures
        r matches Ok(reg) && reg.wf() && reg@ == seq![get_users@],
{
    let mut reg = FnRegistry::new();
    match reg.register(get_users) {
        Ok(()) => {
            assert(reg@ =~= seq![get_users@]);
            Ok(reg)
        },
        Err(e) => Err(e),
    }
}

/// Prefix of the paths of remote calls.
pub open spec fn api_prefix() -> Seq<char> {
    "/api/"@
}

/// Where a remote call goes.
#[derive(Copy, Clone, Debug, PartialEq, Eq, Structural)]
pub enum Dispatch {
    /// To the function at this index of the registry.
    Handler(usize),
    /// No function answers: a not-found response.
    NotFound,
}

/// Where a call to `path` goes: the function named by what follows the prefix, if registered.
pub open spec fn dispatch_spec(reg: Seq<Seq<char>>, path: Seq<char>) -> Option<Seq<char>> {
    if path.len() > api_prefix().len() && path.take(api_prefix().len() as int) == api_prefix() {
        let name = path.skip(api_prefix().len() as int);
        if reg.contains(name) {
            Some(name)
        } else {
            None
        }
    } else {
        None
    }
}

/// Routes a remote call to its function; an unknown name or a path outside the prefix is
/// answered with not found, never with a failure of the server.
pub fn dispatch(reg: &FnRegistry, path: &str) -> (r: Dispatch)
    ensures
        dispatch_spec(reg@, path@) matches Some(name) ==> (r matches Dispatch::Handler(i) && i
            < reg@.len() && reg@[i as int] == name),
        dispatch_spec(reg@, path@) is None ==> r == Dispatch::NotFound,
{
    let prefix = "/api/";
    proof {
        reveal_strlit("/api/");
    }
    let n = path.unicode_len();
    if n <= 5 {
        return Dispatch::NotFound;
    }
    let head = path.substring_char(0, 5);
    if !str_eq(head, prefix) {
        assert(path@.take(5) =~= head@);
        return Dispatch::NotFound;
    }
    let name = path.substring_char(5, n);
    assert(path@.take(5) =~= head@);
    assert(path@.skip(5) =~= name@);
    match reg.lookup(name) {
        Some(i) => Dispatch::Handler(i),
        None => Dispatch::NotFound,
    }
}

/// A call to a name that no function is registered under is answered with not found.
pub proof fn law_unknown_name_not_found(reg: Seq<Seq<char>>, name: Seq<char>)
    requires
        !reg.contains(name),
    ensures
        dispatch_spec(reg, api_prefix() + name) is None,
{
    let path = api_prefix() + name;
    if path.len() > api_prefix().len() {
        assert(path.skip(api_prefix().len() as int) =~= name);
    }
}

} // verus!
