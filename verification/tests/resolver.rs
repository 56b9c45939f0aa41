use contemplate::error::Error;
use contemplate::resolver::{resolve, TemplateTable};
use contemplate::template::TemplateEntry;

type Row = (&'static str, (&'static str, Option<&'static str>, Option<&'static str>));

const STARTER: &str = "https://github.com/tenheadedlion/phat-contract-starter.git";

fn table_of(rows: Vec<Row>) -> TemplateTable {
    let keys: Vec<&'static str> = rows.iter().map(|row| row.0).collect();
    let state = phf_generator::generate_hash(&keys);
    let placed: Vec<Row> = state.map.iter().map(|&index| rows[index]).collect();
    phf::Map {
        key: state.key,
        disps: Box::leak(state.disps.into_boxed_slice()),
        entries: Box::leak(placed.into_boxed_slice()),
    }
}

fn starter_table() -> TemplateTable {
    table_of(vec![
        (
            "phat-contract-with-sideprog",
            (STARTER, Some("master"), Some("log_server-a00c26e4ff2173713db9afca5a82aee3")),
        ),
        (
            "phat-contract",
            (STARTER, Some("plain-phat-contract"), Some("erc20-497c0f607b393edb86f8da1bf053fb06")),
        ),
    ])
}

#[test]
fn known_identifier_resolves_to_its_entry() {
    let table = starter_table();
    assert_eq!(
        resolve(&table, "phat-contract"),
        Ok(TemplateEntry {
            location: STARTER.to_string(),
            branch: Some("plain-phat-contract".to_string()),
            subdirectory: Some("erc20-497c0f607b393edb86f8da1bf053fb06".to_string()),
        })
    );
    assert_eq!(
        resolve(&table, "phat-contract-with-sideprog"),
        Ok(TemplateEntry {
            location: STARTER.to_string(),
            branch: Some("master".to_string()),
            subdirectory: Some("log_server-a00c26e4ff2173713db9afca5a82aee3".to_string()),
        })
    );
}

#[test]
fn entry_without_branch_or_subdirectory_resolves_as_such() {
    let table = table_of(vec![
        ("bare", ("https://example.com/x.git", None, None)),
        ("branch-only", ("https://example.com/x.git", Some("main"), None)),
        ("subdirectory-only", ("https://example.com/x.git", None, Some("pkg/widget"))),
    ]);
    assert_eq!(
        resolve(&table, "bare"),
        Ok(TemplateEntry {
            location: "https://example.com/x.git".to_string(),
            branch: None,
            subdirectory: None,
        })
    );
    assert_eq!(
        resolve(&table, "branch-only"),
        Ok(TemplateEntry {
            location: "https://example.com/x.git".to_string(),
            branch: Some("main".to_string()),
            subdirectory: None,
        })
    );
    assert_eq!(
        resolve(&table, "subdirectory-only"),
        Ok(TemplateEntry {
            location: "https://example.com/x.git".to_string(),
            branch: None,
            subdirectory: Some("pkg/widget".to_string()),
        })
    );
}

#[test]
fn unknown_identifier_is_an_error() {
    let table = starter_table();
    assert_eq!(resolve(&table, "no-such-template"), Err(Error::UnknownTemplate));
    assert_eq!(resolve(&table, ""), Err(Error::UnknownTemplate));
}

#[test]
fn lookup_is_exact() {
    let table = starter_table();
    assert_eq!(resolve(&table, "Phat-Contract"), Err(Error::UnknownTemplate));
    assert_eq!(resolve(&table, "phat-contract "), Err(Error::UnknownTemplate));
    assert_eq!(resolve(&table, "phat"), Err(Error::UnknownTemplate));
    assert_eq!(resolve(&table, "phat-contract-with"), Err(Error::UnknownTemplate));
    assert_eq!(resolve(&table, STARTER), Err(Error::UnknownTemplate));
}

#[test]
fn every_key_of_a_larger_table_is_found() {
    let names: Vec<&'static str> = vec![
        "a", "b", "c", "d", "e", "f", "g", "h", "i", "j", "k", "l", "m", "n", "o", "p", "q",
    ];
    let rows: Vec<Row> = names.iter().map(|name| (*name, (*name, Some(*name), None))).collect();
    let table = table_of(rows);
    for name in &names {
        assert_eq!(
            resolve(&table, name),
            Ok(TemplateEntry {
                location: name.to_string(),
                branch: Some(name.to_string()),
                subdirectory: None,
            })
        );
    }
    assert_eq!(resolve(&table, "r"), Err(Error::UnknownTemplate));
}

#[test]
fn empty_table_knows_nothing() {
    let table: TemplateTable = phf::Map::new();
    assert_eq!(resolve(&table, "demo"), Err(Error::UnknownTemplate));
    let generated = table_of(Vec::new());
    assert_eq!(resolve(&generated, "demo"), Err(Error::UnknownTemplate));
}

#[test]
fn table_without_entries_is_never_probed() {
    let table: TemplateTable = phf::Map { key: 7, disps: &[(0, 0)], entries: &[] };
    assert_eq!(resolve(&table, "demo"), Err(Error::UnknownTemplate));
    assert_eq!(resolve(&table, ""), Err(Error::UnknownTemplate));
}
