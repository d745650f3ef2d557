//! A small YAML value tree and the workflow step record built from it.

use vstd::prelude::*;

verus! {

/// A YAML node: a scalar string or an ordered mapping from keys to nodes.
#[derive(Debug, PartialEq, Eq)]
pub enum Yaml {
    Scalar(String),
    Mapping(Vec<(String, Yaml)>),
}

/// Whether `y` is the scalar `s`.
pub open spec fn is_scalar(y: Yaml, s: Seq<char>) -> bool {
    match y {
        Yaml::Scalar(t) => t@ == s,
        Yaml::Mapping(_) => false,
    }
}

/// Whether `y` is a mapping whose entries are exactly the scalar pairs `kv`, in order.
pub open spec fn is_scalar_map(y: Yaml, kv: Seq<(Seq<char>, Seq<char>)>) -> bool {
    match y {
        Yaml::Scalar(_) => false,
        Yaml::Mapping(entries) => {
            &&& entries@.len() == kv.len()
            &&& forall|i: int|
                0 <= i < kv.len() ==> (#[trigger] entries@[i]).0@ == kv[i].0 && is_scalar(
                    entries@[i].1,
                    kv[i].1,
                )
        },
    }
}

impl Yaml {
    /// A scalar node holding `s`.
    pub fn string(s: String) -> (r: Yaml)
        ensures
            is_scalar(r, s@),
    {
        Yaml::Scalar(s)
    }

    /// A mapping node whose entries are the given key/value strings, in order.
    pub fn map(entries: Vec<(&str, &str)>) -> (r: Yaml)
        ensures
            is_scalar_map(r, entries@.map_values(|e: (&str, &str)| (e.0@, e.1@))),
    {
        let mut out: Vec<(String, Yaml)> = Vec::new();
        let mut i: usize = 0;
        while i < entries.len()
            invariant
                0 <= i <= entries@.len(),
                out@.len() == i,
                forall|j: int|
                    0 <= j < i ==> (#[trigger] out@[j]).0@ == entries@[j].0@ && is_scalar(
                        out@[j].1,
                        entries@[j].1@,
                    ),
            decreases entries@.len() - i,
        {
            let (k, v) = entries[i];
            out.push((k.to_owned(), Yaml::Scalar(v.to_owned())));
            i = i + 1;
        }
        Yaml::Mapping(out)
    }
}

/// One step of a workflow job: a name, the action it uses, the environment
/// it sets and the inputs handed to the action.
#[derive(Debug, PartialEq, Eq)]
pub struct Step {
    pub name: String,
    pub uses: Option<String>,
    pub env: Vec<(String, String)>,
    pub with: Option<Yaml>,
}

/// Whether `o` holds the string `s`.
pub open spec fn holds_str(o: Option<String>, s: Seq<char>) -> bool {
    match o {
        Some(t) => t@ == s,
        None => false,
    }
}

impl Step {
    /// A step that runs the action `uses`, with no inputs and no environment.
    pub fn uses(name: &str, uses: &str) -> (r: Step)
        ensures
            r.name@ == name@,
            holds_str(r.uses, uses@),
            r.env@.len() == 0,
            r.with is None,
    {
        Step { name: name.to_owned(), uses: Some(uses.to_owned()), env: Vec::new(), with: None }
    }

    /// A step that runs the action `uses` with the inputs `with`.
    pub fn uses_with(name: &str, uses: &str, with: Yaml) -> (r: Step)
        ensures
            r.name@ == name@,
            holds_str(r.uses, uses@),
            r.env@.len() == 0,
            r.with == Some(with),
    {
        Step { name: name.to_owned(), uses: Some(uses.to_owned()), env: Vec::new(), with: Some(with) }
    }

    /// A step that runs the action `uses` with the environment `env` and the inputs `with`.
    pub fn uses_env_with(name: &str, uses: &str, env: &[(&str, &str)], with: Yaml) -> (r: Step)
        ensures
            r.name@ == name@,
            holds_str(r.uses, uses@),
            r.env@.len() == env@.len(),
            forall|i: int|
                0 <= i < env@.len() ==> (#[trigger] r.env@[i]).0@ == env@[i].0@ && r.env@[i].1@
                    == env@[i].1@,
            r.with == Some(with),
    {
        let mut out: Vec<(String, String)> = Vec::new();
        let mut i: usize = 0;
        while i < env.len()
            invariant
                0 <= i <= env@.len(),
                out@.len() == i,
                forall|j: int|
                    0 <= j < i ==> (#[trigger] out@[j]).0@ == env@[j].0@ && out@[j].1@
                        == env@[j].1@,
            decreases env@.len() - i,
        {
            let (k, v) = env[i];
            out.push((k.to_owned(), v.to_owned()));
            i = i + 1;
        }
        Step { name: name.to_owned(), uses: Some(uses.to_owned()), env: out, with: Some(with) }
    }
}

} // verus!
