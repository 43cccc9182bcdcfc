use metro_schedule::stations::{default_alias_table, resolve};
use metro_schedule::Error;

#[test]
fn resolves_plain_alias() {
    let table = default_alias_table();
    let key = resolve("lambert", &table).unwrap();
    assert_eq!(key.column, "Lambert Airport Terminal # 1");
}

#[test]
fn resolution_is_case_insensitive() {
    let table = default_alias_table();
    let key = resolve("Lambert", &table).unwrap();
    assert_eq!(key.column, "Lambert Airport Terminal # 1");
    let key = resolve("CWE", &table).unwrap();
    assert_eq!(key.column, "Central West End Station");
}

#[test]
fn resolution_trims_whitespace() {
    let table = default_alias_table();
    let key = resolve("  shrewsbury \n", &table).unwrap();
    assert_eq!(key.column, "ShrewsburyLansdowne I44 Station");
}

#[test]
fn aliases_of_one_station_share_a_key() {
    let table = default_alias_table();
    let pairs = [
        ("umsl", "umsl north"),
        ("cwe", "central west end"),
        ("richmond", "richmond heights"),
        ("u city", "university city"),
        ("civic", "civic center"),
        ("8th pine", "8th and pine"),
        ("convention", "convention center"),
        ("lacledes", "lacledes landing"),
        ("riverfront", "east riverfront"),
        ("fifth missouri", "5th missouri"),
        ("emerson", "emerson park"),
        ("jjk", "jackie joiner"),
        ("fvh", "fairview heights"),
        ("shiloh", "shiloh scott"),
    ];
    for (a, b) in pairs {
        let ka = resolve(a, &table).unwrap();
        let kb = resolve(b, &table).unwrap();
        assert_eq!(ka.column, kb.column, "{} vs {}", a, b);
    }
}

#[test]
fn every_station_of_the_line_is_registered() {
    let table = default_alias_table();
    for name in [
        "lambert", "lambert2", "hanley", "umsl south", "rock road", "wellston", "delmar",
        "sunnen", "maplewood", "brentwood", "clayton", "forsyth", "skinker", "forest park",
        "cortex", "grand", "union", "stadium", "washington", "memorial hospital", "swansea",
        "belleville", "college",
    ] {
        assert!(resolve(name, &table).is_ok(), "{} should resolve", name);
    }
}

#[test]
fn unknown_station_is_rejected() {
    let table = default_alias_table();
    assert_eq!(resolve("atlantis", &table).unwrap_err(), Error::UnknownStation);
    assert_eq!(resolve("", &table).unwrap_err(), Error::UnknownStation);
}
