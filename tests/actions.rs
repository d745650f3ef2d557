use protobuf_reflect::actions::{
    cache, cargo, cargo_build, cargo_doc, cargo_test, checkout_sources, checkout_sources_depth,
    decimal_string, rust_install_toolchain, RustToolchain,
};
use protobuf_reflect::workflow::{Step, Yaml};

fn scalar_map(entries: &[(&str, &str)]) -> Yaml {
    Yaml::Mapping(
        entries.iter().map(|(k, v)| (k.to_string(), Yaml::Scalar(v.to_string()))).collect(),
    )
}

#[test]
fn checkout_without_depth() {
    let step = checkout_sources();
    assert_eq!(step.name, "Checkout sources");
    assert_eq!(step.uses.as_deref(), Some("actions/checkout@v2"));
    assert!(step.env.is_empty());
    assert_eq!(step.with, None);
    assert_eq!(checkout_sources_depth(None), step);
}

#[test]
fn checkout_with_depth() {
    let step = checkout_sources_depth(Some(20));
    assert_eq!(step.with, Some(scalar_map(&[("fetch-depth", "20")])));
    let step = checkout_sources_depth(Some(0));
    assert_eq!(step.with, Some(scalar_map(&[("fetch-depth", "0")])));
}

#[test]
fn decimal_rendering() {
    assert_eq!(decimal_string(0), "0");
    assert_eq!(decimal_string(7), "7");
    assert_eq!(decimal_string(10), "10");
    assert_eq!(decimal_string(1234567890), "1234567890");
    assert_eq!(decimal_string(u32::MAX), "4294967295");
}

#[test]
fn toolchain_names() {
    assert_eq!(RustToolchain::Stable.channel_name(), "stable");
    assert_eq!(RustToolchain::Beta.channel_name(), "beta");
    assert_eq!(RustToolchain::Nightly.channel_name(), "nightly");
    assert_eq!(RustToolchain::Version("1.60.0".to_string()).channel_name(), "1.60.0");
}

#[test]
fn install_toolchain_step() {
    let step = rust_install_toolchain(&RustToolchain::Nightly);
    let expected = Step {
        name: "Install toolchain".to_string(),
        uses: Some("actions-rs/toolchain@v1".to_string()),
        env: Vec::new(),
        with: Some(scalar_map(&[
            ("profile", "minimal"),
            ("toolchain", "nightly"),
            ("override", "true"),
        ])),
    };
    assert_eq!(step, expected);
    let step = rust_install_toolchain(&RustToolchain::Version("1.55.0".to_string()));
    assert_eq!(
        step.with,
        Some(scalar_map(&[
            ("profile", "minimal"),
            ("toolchain", "1.55.0"),
            ("override", "true"),
        ]))
    );
}

#[test]
fn cargo_steps() {
    let step = cargo("Run", "run", "");
    assert_eq!(step.name, "Run");
    assert_eq!(step.uses.as_deref(), Some("actions-rs/cargo@v1"));
    assert_eq!(step.with, Some(scalar_map(&[("command", "run")])));
    let step = cargo("Run", "run", "--all");
    assert_eq!(step.with, Some(scalar_map(&[("command", "run"), ("args", "--all")])));
    assert_eq!(
        cargo_test("t", "--lib").with,
        Some(scalar_map(&[("command", "test"), ("args", "--lib")]))
    );
    assert_eq!(cargo_build("b", "").with, Some(scalar_map(&[("command", "build")])));
    assert_eq!(cargo_doc("d", "").with, Some(scalar_map(&[("command", "doc")])));
}

#[test]
fn cache_step() {
    let step = cache("Cache", "k1", "target");
    assert_eq!(step.name, "Cache");
    assert_eq!(step.uses.as_deref(), Some("actions/cache@v2"));
    assert_eq!(step.env, vec![("cache-name".to_string(), "pb".to_string())]);
    assert_eq!(step.with, Some(scalar_map(&[("key", "k1"), ("path", "target")])));
}

#[test]
fn yaml_builders() {
    assert_eq!(Yaml::string("v".to_string()), Yaml::Scalar("v".to_string()));
    assert_eq!(Yaml::map(vec![]), Yaml::Mapping(vec![]));
    let s = Step::uses_env_with("n", "u", &[("a", "1"), ("b", "2")], Yaml::map(vec![("x", "y")]));
    assert_eq!(s.env.len(), 2);
    assert_eq!(s.env[1], ("b".to_string(), "2".to_string()));
}
