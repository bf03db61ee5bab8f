use hildie_lib::batch::greet_all;
use hildie_lib::greet;

#[test]
fn greet_all_greets_each_name_in_order() {
    let names = vec!["Ada".to_string(), "Grace".to_string(), "Edsger".to_string()];
    assert_eq!(
        greet_all(names),
        vec![
            "Hello from Hildie Rust Library, Ada!".to_string(),
            "Hello from Hildie Rust Library, Grace!".to_string(),
            "Hello from Hildie Rust Library, Edsger!".to_string(),
        ]
    );
}

#[test]
fn greet_all_of_nothing_is_empty() {
    let greeted = greet_all(Vec::new());
    assert!(greeted.is_empty());
}

#[test]
fn greet_all_agrees_with_greet() {
    let names = vec![
        "World".to_string(),
        "".to_string(),
        " ".to_string(),
        "Zoë".to_string(),
        "World".to_string(),
    ];
    let greeted = greet_all(names.clone());
    assert_eq!(greeted.len(), names.len());
    for (name, greeting) in names.iter().zip(greeted.iter()) {
        assert_eq!(*greeting, greet(name));
    }
}

#[test]
fn greet_all_keeps_duplicates_and_empty_names() {
    let names = vec!["Bo".to_string(), "Bo".to_string(), "".to_string()];
    assert_eq!(
        greet_all(names),
        vec![
            "Hello from Hildie Rust Library, Bo!".to_string(),
            "Hello from Hildie Rust Library, Bo!".to_string(),
            "Hello from Hildie Rust Library, !".to_string(),
        ]
    );
}

#[test]
fn greet_all_of_one_name() {
    assert_eq!(
        greet_all(vec!["World".to_string()]),
        vec!["Hello from Hildie Rust Library, World!".to_string()]
    );
}

#[test]
fn greet_all_does_not_reorder() {
    let forward = greet_all(vec!["a".to_string(), "b".to_string()]);
    let backward = greet_all(vec!["b".to_string(), "a".to_string()]);
    assert_eq!(forward[0], backward[1]);
    assert_eq!(forward[1], backward[0]);
    assert_ne!(forward[0], forward[1]);
}
