use rokit::{ArtifactProvider, ToolId, ToolIdParseError};
use std::cmp::Ordering;
use std::collections::HashMap;

fn new_id_with_provider(provider: ArtifactProvider, author: &str, name: &str) -> ToolId {
    let tagged = match provider {
        ArtifactProvider::GitHub => format!("github:{}/{}", author, name),
    };
    tagged.parse::<ToolId>().unwrap()
}

fn new_id(author: &str, name: &str) -> ToolId {
    format!("{}/{}", author, name).parse::<ToolId>().unwrap()
}

#[test]
fn parse_valid_basic() {
    // Basic strings should parse ok
    assert!("a/b".parse::<ToolId>().is_ok());
    assert!("author/name".parse::<ToolId>().is_ok());
    assert!("123abc456/78de90".parse::<ToolId>().is_ok());
    // The parsed ToolId should match the input
    assert_eq!("a/b".parse::<ToolId>().unwrap(), new_id("a", "b"));
    assert_eq!(
        "author/name".parse::<ToolId>().unwrap(),
        new_id("author", "name")
    );
    assert_eq!(
        "123abc456/78de90".parse::<ToolId>().unwrap(),
        new_id("123abc456", "78de90")
    );
}

#[test]
fn parse_valid_extra_whitespace() {
    // Leading and trailing whitespace should be trimmed and ok
    assert!("a/ b".parse::<ToolId>().is_ok());
    assert!("a/b ".parse::<ToolId>().is_ok());
    assert!("a /b".parse::<ToolId>().is_ok());
    assert!("a/ b".parse::<ToolId>().is_ok());
    assert!("a/b ".parse::<ToolId>().is_ok());
    // The trimmed whitespace should not be in the resulting ToolId
    let id = new_id("a", "b");
    assert_eq!("a/ b".parse::<ToolId>().unwrap(), id);
    assert_eq!("a/b ".parse::<ToolId>().unwrap(), id);
    assert_eq!("a /b".parse::<ToolId>().unwrap(), id);
    assert_eq!("a/ b".parse::<ToolId>().unwrap(), id);
    assert_eq!("a/b ".parse::<ToolId>().unwrap(), id);
}

#[test]
fn parse_valid_provider() {
    // Known provider strings should parse ok
    assert!("github:a/b".parse::<ToolId>().is_ok());
    // The parsed ToolId should match the input
    assert_eq!(
        "github:a/b".parse::<ToolId>().unwrap(),
        new_id_with_provider(ArtifactProvider::GitHub, "a", "b")
    );
}

#[test]
fn parse_invalid_missing() {
    // Empty strings or parts should not be allowed
    assert!("".parse::<ToolId>().is_err());
    assert!("/".parse::<ToolId>().is_err());
    assert!("a/".parse::<ToolId>().is_err());
    assert!("/b".parse::<ToolId>().is_err());
}

#[test]
fn parse_invalid_extra_separator() {
    // Superfluous separators should not be allowed
    assert!("a/b/".parse::<ToolId>().is_err());
    assert!("a/b/c".parse::<ToolId>().is_err());
}

#[test]
fn parse_invalid_provider() {
    // Empty provider should not be allowed
    assert!(":a/b".parse::<ToolId>().is_err());
    assert!(":a/b".parse::<ToolId>().is_err());
    assert!(":a/b".parse::<ToolId>().is_err());
    // Unrecognized provider should not be allowed
    assert!("unknown:a/b".parse::<ToolId>().is_err());
    assert!("hubgit:a/b".parse::<ToolId>().is_err());
    assert!("bitbab:a/b".parse::<ToolId>().is_err());
}

#[test]
fn case_preservation() {
    // The author and name should be preserved in their original case
    assert_eq!(new_id("author", "name").author(), "author");
    assert_eq!(new_id("author", "name").name(), "name");
    assert_eq!(new_id("Author", "Name").author(), "Author");
    assert_eq!(new_id("Author", "Name").name(), "Name");
    assert_eq!(new_id("123abc456", "78de90").author(), "123abc456");
    assert_eq!(new_id("123abc456", "78de90").name(), "78de90");
}

#[test]
fn case_sensitivity_eq() {
    // Case-insensitive comparisons should be equal
    assert_eq!(new_id("a", "b"), new_id("A", "B"));
    assert_eq!(new_id("author", "name"), new_id("Author", "Name"));
    assert_eq!(new_id("123abc456", "78de90"), new_id("123ABC456", "78DE90"));
}

#[test]
fn case_sensitivity_ord() {
    // Case-insensitive comparisons should be equal
    assert_eq!(new_id("a", "b").cmp(&new_id("A", "B")), Ordering::Equal);
    assert_eq!(
        new_id("author", "name").cmp(&new_id("Author", "Name")),
        Ordering::Equal
    );
    assert_eq!(
        new_id("123abc456", "78de90").cmp(&new_id("123ABC456", "78DE90")),
        Ordering::Equal
    );
}

#[test]
fn case_sensitivity_hash() {
    // Case-insensitive comparisons should have the
    // same hash and work in collections such as HashMap
    let mut map = HashMap::new();
    map.insert(new_id("a", "b"), 1);
    map.insert(new_id("author", "name"), 2);
    map.insert(new_id("123abc456", "78de90"), 3);
    assert_eq!(map.get(&new_id("A", "B")), Some(&1));
    assert_eq!(map.get(&new_id("Author", "Name")), Some(&2));
    assert_eq!(map.get(&new_id("123ABC456", "78DE90")), Some(&3));
}

#[test]
fn parse_error_kinds() {
    // Each failure reports its own kind, with the offending segment
    assert!(matches!(
        "".parse::<ToolId>().unwrap_err(),
        ToolIdParseError::Empty
    ));
    assert!(matches!(
        "ab".parse::<ToolId>().unwrap_err(),
        ToolIdParseError::MissingSeparator
    ));
    match "/".parse::<ToolId>().unwrap_err() {
        ToolIdParseError::InvalidAuthor(a) => assert_eq!(a, ""),
        other => panic!("unexpected error {:?}", other),
    }
    match "/b".parse::<ToolId>().unwrap_err() {
        ToolIdParseError::InvalidAuthor(a) => assert_eq!(a, ""),
        other => panic!("unexpected error {:?}", other),
    }
    match "a/".parse::<ToolId>().unwrap_err() {
        ToolIdParseError::InvalidName(n) => assert_eq!(n, ""),
        other => panic!("unexpected error {:?}", other),
    }
    match "a/b/c".parse::<ToolId>().unwrap_err() {
        ToolIdParseError::InvalidName(n) => assert_eq!(n, "b/c"),
        other => panic!("unexpected error {:?}", other),
    }
    match "a/b/".parse::<ToolId>().unwrap_err() {
        ToolIdParseError::InvalidName(n) => assert_eq!(n, "b/"),
        other => panic!("unexpected error {:?}", other),
    }
    match ":a/b".parse::<ToolId>().unwrap_err() {
        ToolIdParseError::InvalidProvider(t) => assert_eq!(t, ""),
        other => panic!("unexpected error {:?}", other),
    }
    match "unknown:a/b".parse::<ToolId>().unwrap_err() {
        ToolIdParseError::InvalidProvider(t) => assert_eq!(t, "unknown"),
        other => panic!("unexpected error {:?}", other),
    }
}

#[test]
fn parse_scenarios() {
    // A plain identifier gets the default provider
    let id = "a/b".parse::<ToolId>().unwrap();
    assert_eq!(id.author(), "a");
    assert_eq!(id.name(), "b");
    assert_eq!(id.provider(), ArtifactProvider::default());
    // Casing is preserved for display but not for identity
    let cased = "Author/Name".parse::<ToolId>().unwrap();
    assert_eq!(cased.author(), "Author");
    assert_eq!(cased, "author/name".parse::<ToolId>().unwrap());
}

#[test]
fn trimming_equivalence() {
    // Whitespace around segments never reaches the identifier
    assert_eq!(
        "a/ b ".parse::<ToolId>().unwrap(),
        "a/b".parse::<ToolId>().unwrap()
    );
    let id = " a \u{00A0}/\t b ".parse::<ToolId>().unwrap();
    assert_eq!(id.author(), "a");
    assert_eq!(id.name(), "b");
}

#[test]
fn provider_round_trip() {
    // An explicit default tag parses to the same identifier as no tag
    assert_eq!(
        "github:a/b".parse::<ToolId>().unwrap(),
        "a/b".parse::<ToolId>().unwrap()
    );
    assert_eq!(
        "github:a/b".parse::<ToolId>().unwrap().provider(),
        ArtifactProvider::GitHub
    );
    assert_eq!(ArtifactProvider::GitHub.tag(), "github");
}

#[test]
fn render_drops_provider() {
    // The canonical text keeps original casing and never re-emits the tag
    assert_eq!("a/b".parse::<ToolId>().unwrap().render(), "a/b");
    assert_eq!("github:a/b".parse::<ToolId>().unwrap().render(), "a/b");
    assert_eq!(
        "Author/Name".parse::<ToolId>().unwrap().render(),
        "Author/Name"
    );
    // Render of a parse re-parses to an equal identifier
    let id = "github:Some/Tool".parse::<ToolId>().unwrap();
    assert_eq!(id.render().parse::<ToolId>().unwrap(), id);
}

#[test]
fn lowercasing_reaches_identity() {
    // Mixed-case segments are equal to their lowercase forms but keep casing
    let id = "AbC/dEf".parse::<ToolId>().unwrap();
    assert_eq!(id, "abc/def".parse::<ToolId>().unwrap());
    assert_ne!(id, "abd/def".parse::<ToolId>().unwrap());
    assert_eq!(id.author(), "AbC");
    assert_eq!(id.name(), "dEf");
}

#[test]
fn ordering_is_case_insensitive_tuple_order() {
    // Lexicographic over (author, name), after lowercasing
    assert_eq!(new_id("a", "x").cmp(&new_id("b", "a")), Ordering::Less);
    assert_eq!(new_id("a", "b").cmp(&new_id("a", "c")), Ordering::Less);
    assert_eq!(new_id("B", "a").cmp(&new_id("a", "z")), Ordering::Greater);
    assert_eq!(new_id("tool", "x").cmp(&new_id("TOOL", "x")), Ordering::Equal);
    assert!(new_id("a", "b") < new_id("a", "c"));
    // The provider takes no part in the order
    assert_eq!(
        new_id_with_provider(ArtifactProvider::GitHub, "a", "b").cmp(&new_id("A", "B")),
        Ordering::Equal
    );
}

#[test]
fn hash_lookup_scenario() {
    // Map keys are case-insensitive
    let mut map = HashMap::new();
    map.insert("a/b".parse::<ToolId>().unwrap(), 1);
    map.insert("Author/Name".parse::<ToolId>().unwrap(), 2);
    assert_eq!(map.get(&"A/B".parse::<ToolId>().unwrap()), Some(&1));
    assert_eq!(map.get(&"AUTHOR/NAME".parse::<ToolId>().unwrap()), Some(&2));
}

#[test]
fn into_downstream_values() {
    // The identifier is consumed into the larger values
    let alias = "a/SomeTool".parse::<ToolId>().unwrap().into_alias();
    assert_eq!(alias.name, "SomeTool");
    let id = "a/b".parse::<ToolId>().unwrap();
    let spec = id.clone().into_spec(semver::Version::new(1, 2, 3));
    assert_eq!(spec.id, id);
    assert_eq!(spec.version, semver::Version::new(1, 2, 3));
}
