//! Builders for the workflow steps that the CI jobs are made of.

use vstd::prelude::*;
use crate::workflow::{Step, Yaml, is_scalar, is_scalar_map, holds_str};

verus! {

/// The decimal digit character for `d < 10`.
pub open spec fn digit_char(d: nat) -> char {
    if d == 0 { '0' } else if d == 1 { '1' } else if d == 2 { '2' } else if d == 3 { '3' }
    else if d == 4 { '4' } else if d == 5 { '5' } else if d == 6 { '6' } else if d == 7 { '7' }
    else if d == 8 { '8' } else { '9' }
}

/// The decimal notation of `n`, without leading zeros.
pub open spec fn decimal(n: nat) -> Seq<char>
    decreases n,
{
    if n < 10 {
        seq![digit_char(n)]
    } else {
        decimal(n / 10).push(digit_char(n % 10))
    }
}

fn digit_str(d: u32) -> (r: &'static str)
    requires
        d < 10,
    ensures
        r@ == seq![digit_char(d as nat)],
{
    proof {
        reveal_strlit("0"); reveal_strlit("1"); reveal_strlit("2"); reveal_strlit("3");
        reveal_strlit("4"); reveal_strlit("5"); reveal_strlit("6"); reveal_strlit("7");
        reveal_strlit("8"); reveal_strlit("9");
    }
    if d == 0 { "0" } else if d == 1 { "1" } else if d == 2 { "2" } else if d == 3 { "3" }
    else if d == 4 { "4" } else if d == 5 { "5" } else if d == 6 { "6" } else if d == 7 { "7" }
    else if d == 8 { "8" } else { "9" }
}

/// Renders `n` in decimal.
pub fn decimal_string(n: u32) -> (r: String)
    ensures
        r@ == decimal(n as nat),
    decreases n,
{
    if n < 10 {
        String::from_str(digit_str(n))
    } else {
        let mut s = decimal_string(n / 10);
        s.append(digit_str(n % 10));
        s
    }
}

/// Checks out the repository, fetching `depth` commits when a depth is given.
pub fn checkout_sources_depth(depth: Option<u32>) -> (r: Step)
    ensures
        r.name@ == "Checkout sources"@,
        holds_str(r.uses, "actions/checkout@v2"@),
        r.env@.len() == 0,
        match depth {
            None => r.with is None,
            Some(d) => match r.with {
                Some(w) => is_scalar_map(w, seq![("fetch-depth"@, decimal(d as nat))]),
                None => false,
            },
        },
{
    let mut step = Step::uses("Checkout sources", "actions/checkout@v2");
    if let Some(depth) = depth {
        let mut entries: Vec<(String, Yaml)> = Vec::new();
        entries.push((String::from_str("fetch-depth"), Yaml::string(decimal_string(depth))));
        step.with = Some(Yaml::Mapping(entries));
    }
    step
}

/// Checks out the repository with its whole history.
pub fn checkout_sources() -> (r: Step)
    ensures
        r.name@ == "Checkout sources"@,
        holds_str(r.uses, "actions/checkout@v2"@),
        r.env@.len() == 0,
        r.with is None,
{
    checkout_sources_depth(None)
}

/// A Rust release channel, or a pinned compiler version.
#[derive(Eq, PartialEq, Clone)]
pub enum RustToolchain {
    Stable,
    Beta,
    Nightly,
    Version(String),
}

impl RustToolchain {
    /// The name under which the toolchain installer knows this channel.
    pub open spec fn channel_spec(&self) -> Seq<char> {
        match self {
            RustToolchain::Stable => "stable"@,
            RustToolchain::Beta => "beta"@,
            RustToolchain::Nightly => "nightly"@,
            RustToolchain::Version(v) => v@,
        }
    }

    /// The name under which the toolchain installer knows this channel.
    pub fn channel_name(&self) -> (r: String)
        ensures
            r@ == self.channel_spec(),
    {
        match self {
            RustToolchain::Stable => String::from_str("stable"),
            RustToolchain::Beta => String::from_str("beta"),
            RustToolchain::Nightly => String::from_str("nightly"),
            RustToolchain::Version(v) => v.clone(),
        }
    }
}

/// Installs the given toolchain with the minimal profile and makes it the override.
pub fn rust_install_toolchain(channel: &RustToolchain) -> (r: Step)
    ensures
        r.name@ == "Install toolchain"@,
        holds_str(r.uses, "actions-rs/toolchain@v1"@),
        r.env@.len() == 0,
        match r.with {
            Some(w) => is_scalar_map(
                w,
                seq![
                    ("profile"@, "minimal"@),
                    ("toolchain"@, channel.channel_spec()),
                    ("override"@, "true"@),
                ],
            ),
            None => false,
        },
{
    let toolchain = channel.channel_name();
    let mut entries: Vec<(&str, &str)> = Vec::new();
    entries.push(("profile", "minimal"));
    entries.push(("toolchain", toolchain.as_str()));
    entries.push(("override", "true"));
    let with = Yaml::map(entries);
    proof {
        let kv = entries@.map_values(|e: (&str, &str)| (e.0@, e.1@));
        assert(kv =~= seq![
            ("profile"@, "minimal"@),
            ("toolchain"@, channel.channel_spec()),
            ("override"@, "true"@),
        ]);
    }
    Step::uses_with("Install toolchain", "actions-rs/toolchain@v1", with)
}

/// Runs `cargo <command>`, passing `args` only when it is not empty.
pub fn cargo(name: &str, command: &str, args: &str) -> (r: Step)
    ensures
        r.name@ == name@,
        holds_str(r.uses, "actions-rs/cargo@v1"@),
        r.env@.len() == 0,
        match r.with {
            Some(w) => is_scalar_map(w, cargo_inputs(command@, args@)),
            None => false,
        },
{
    let mut with: Vec<(&str, &str)> = Vec::new();
    with.push(("command", command));
    if !args.is_empty() {
        with.push(("args", args));
    }
    let y = Yaml::map(with);
    proof {
        let kv = with@.map_values(|e: (&str, &str)| (e.0@, e.1@));
        if args@.len() == 0 {
            assert(kv =~= seq![("command"@, command@)]);
        } else {
            assert(kv =~= seq![("command"@, command@), ("args"@, args@)]);
        }
    }
    Step::uses_with(name, "actions-rs/cargo@v1", y)
}


/// The inputs of a cargo step: the command, then the arguments when there are any.
pub open spec fn cargo_inputs(command: Seq<char>, args: Seq<char>) -> Seq<(Seq<char>, Seq<char>)> {
    if args.len() == 0 {
        seq![("command"@, command)]
    } else {
        seq![("command"@, command), ("args"@, args)]
    }
}

/// Runs `cargo test`.
pub fn cargo_test(name: &str, args: &str) -> (r: Step)
    ensures
        r.name@ == name@,
        holds_str(r.uses, "actions-rs/cargo@v1"@),
        r.env@.len() == 0,
        match r.with {
            Some(w) => is_scalar_map(w, cargo_inputs("test"@, args@)),
            None => false,
        },
{
    cargo(name, "test", args)
}

/// Runs `cargo build`.
pub fn cargo_build(name: &str, args: &str) -> (r: Step)
    ensures
        r.name@ == name@,
        holds_str(r.uses, "actions-rs/cargo@v1"@),
        r.env@.len() == 0,
        match r.with {
            Some(w) => is_scalar_map(w, cargo_inputs("build"@, args@)),
            None => false,
        },
{
    cargo(name, "build", args)
}

/// Runs `cargo doc`.
pub fn cargo_doc(name: &str, args: &str) -> (r: Step)
    ensures
        r.name@ == name@,
        holds_str(r.uses, "actions-rs/cargo@v1"@),
        r.env@.len() == 0,
        match r.with {
            Some(w) => is_scalar_map(w, cargo_inputs("doc"@, args@)),
            None => false,
        },
{
    cargo(name, "doc", args)
}

/// Caches `path` under `key`, in the cache named `pb`.
pub fn cache(name: &str, key: &str, path: &str) -> (r: Step)
    ensures
        r.name@ == name@,
        holds_str(r.uses, "actions/cache@v2"@),
        r.env@.len() == 1,
        r.env@[0].0@ == "cache-name"@,
        r.env@[0].1@ == "pb"@,
        match r.with {
            Some(w) => is_scalar_map(w, seq![("key"@, key@), ("path"@, path@)]),
            None => false,
        },
{
    let mut with: Vec<(&str, &str)> = Vec::new();
    with.push(("key", key));
    with.push(("path", path));
    let y = Yaml::map(with);
    proof {
        let kv = with@.map_values(|e: (&str, &str)| (e.0@, e.1@));
        assert(kv =~= seq![("key"@, key@), ("path"@, path@)]);
    }
    let env: [(&str, &str); 1] = [("cache-name", "pb")];
    Step::uses_env_with(name, "actions/cache@v2", &env, y)
}

} // verus!
