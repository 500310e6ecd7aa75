//! App registry: a persisted, ordered list of name-to-path entries. The
//! invocation pipeline reads it; the configuration editor owns and edits it.

use vstd::prelude::*;
use crate::text::str_eq;

verus! {

/// One registry entry: a human-chosen name and, optionally, the path of the
/// executable it stands for.
#[derive(Debug, Clone, PartialEq, Eq)]
pub struct AppConfig {
    /// The name an invocation looks the entry up by.
    pub name: String,
    /// The executable path, absent until the editor assigns one.
    pub path: Option<String>,
}

/// The characters of an entry: its name and its optional path.
pub ghost struct AppConfigView {
    /// The entry's name.
    pub name: Seq<char>,
    /// The entry's path, if one is assigned.
    pub path: Option<Seq<char>>,
}

impl View for AppConfig {
    type V = AppConfigView;

    open spec fn view(&self) -> AppConfigView {
        AppConfigView {
            name: self.name@,
            path: match self.path {
                Some(p) => Some(p@),
                None => None,
            },
        }
    }
}

impl Default for AppConfig {
    /// A blank entry: empty name, no path yet.
    fn default() -> (r: Self)
        ensures
            r@.name == Seq::<char>::empty(),
            r@.path is None,
    {
        AppConfig { name: String::new(), path: None }
    }
}

/// The whole persisted configuration: whether the URI scheme is currently
/// registered with the operating system, and the registry of entries.
#[derive(Debug, Clone, PartialEq, Eq)]
pub struct Config {
    /// Whether the scheme registration was added.
    pub is_registry_added: bool,
    /// The ordered registry of entries.
    pub apps: Vec<AppConfig>,
}

impl Default for Config {
    /// An empty configuration: nothing registered, no entries.
    fn default() -> (r: Self)
        ensures
            r.is_registry_added == false,
            r.apps@ == Seq::<AppConfig>::empty(),
    {
        Config { is_registry_added: false, apps: Vec::new() }
    }
}

impl Config {
    /// Appends a blank entry for the editor to fill in.
    pub fn add_app(&mut self)
        ensures
            final(self).is_registry_added == old(self).is_registry_added,
            final(self).apps@.len() == old(self).apps@.len() + 1,
            final(self).apps@.subrange(0, old(self).apps@.len() as int) == old(self).apps@,
            final(self).apps@.last()@.name == Seq::<char>::empty(),
            final(self).apps@.last()@.path is None,
    {
        self.apps.push(AppConfig::default());
        proof {
            assert(self.apps@.subrange(0, old(self).apps@.len() as int) =~= old(self).apps@);
        }
    }

    /// Removes the entry at the given position, keeping the order of the rest.
    pub fn remove_app(&mut self, index: usize)
        requires
            index < old(self).apps@.len(),
        ensures
            final(self).is_registry_added == old(self).is_registry_added,
            final(self).apps@ == old(self).apps@.remove(index as int),
    {
        self.apps.remove(index);
    }
}

/// The views of all entries of a registry, in order.
pub open spec fn registry_view(apps: Seq<AppConfig>) -> Seq<AppConfigView> {
    apps.map_values(|a: AppConfig| a@)
}

/// The path an entry hands to the launcher: its assigned path, or the empty
/// string where none is assigned.
pub open spec fn entry_path(entry: AppConfigView) -> Seq<char> {
    match entry.path {
        Some(p) => p,
        None => Seq::empty(),
    }
}

/// What looking a name up yields: the path of the first entry whose name
/// equals the requested name exactly, or `None` where no entry matches.
pub open spec fn lookup_spec(apps: Seq<AppConfigView>, name: Seq<char>) -> Option<Seq<char>>
    decreases apps.len(),
{
    if apps.len() == 0 {
        None
    } else if apps[0].name == name {
        Some(entry_path(apps[0]))
    } else {
        lookup_spec(apps.drop_first(), name)
    }
}

/// The lookup is exact: it yields a path precisely when some entry carries
/// the requested name, and the path is the first such entry's.
pub proof fn lemma_lookup_first_match(apps: Seq<AppConfigView>, name: Seq<char>)
    ensures
        (lookup_spec(apps, name) is Some) <==> (exists|i: int|
            0 <= i < apps.len() && apps[i].name == name),
        forall|i: int|
            (0 <= i < apps.len() && apps[i].name == name && (forall|j: int|
                0 <= j < i ==> apps[j].name != name)) ==> lookup_spec(apps, name) == Some(
                entry_path(apps[i]),
            ),
    decreases apps.len(),
{
    if apps.len() > 0 && apps[0].name != name {
        let rest = apps.drop_first();
        lemma_lookup_first_match(rest, name);
        assert(forall|i: int| 0 < i < apps.len() ==> apps[i] == #[trigger] rest[i - 1]);
        if lookup_spec(apps, name) is Some {
            let w = choose|i: int| 0 <= i < rest.len() && rest[i].name == name;
            assert(apps[w + 1].name == name);
        }
        if exists|i: int| 0 <= i < apps.len() && apps[i].name == name {
            let w = choose|i: int| 0 <= i < apps.len() && apps[i].name == name;
            assert(rest[w - 1].name == name);
        }
        assert forall|i: int|
            0 <= i < apps.len() && apps[i].name == name && (forall|j: int|
                0 <= j < i ==> apps[j].name != name) implies lookup_spec(apps, name) == Some(
            entry_path(apps[i]),
        ) by {
            assert(rest[i - 1].name == name);
            assert(forall|j: int| 0 <= j < i - 1 ==> rest[j].name != name);
        }
    }
}

/// Finds the executable path for the given name: a linear scan, first match
/// wins, names compared byte-exactly. An entry without a path yields the
/// empty string.
pub fn lookup_app(apps: &Vec<AppConfig>, name: &str) -> (r: Option<String>)
    ensures
        r matches Some(p) ==> lookup_spec(registry_view(apps@), name@) == Some(p@),
        r is None ==> lookup_spec(registry_view(apps@), name@) is None,
{
    let ghost av = registry_view(apps@);
    proof {
        assert(av.skip(0) =~= av);
    }
    let mut i: usize = 0;
    while i < apps.len()
        invariant
            i <= apps@.len(),
            av == registry_view(apps@),
            av.len() == apps@.len(),
            forall|k: int| 0 <= k < av.len() ==> av[k] == apps@[k]@,
            lookup_spec(av.skip(i as int), name@) == lookup_spec(av, name@),
        decreases apps@.len() - i,
    {
        proof {
            assert(av.skip(i as int)[0] == av[i as int]);
        }
        if str_eq(apps[i].name.as_str(), name) {
            let p = match &apps[i].path {
                Some(p) => p.clone(),
                None => String::new(),
            };
            return Some(p);
        }
        proof {
            assert(av.skip(i as int).drop_first() =~= av.skip(i as int + 1));
        }
        i += 1;
    }
    proof {
        assert(av.skip(apps@.len() as int) =~= Seq::<AppConfigView>::empty());
    }
    None
}

} // verus!
