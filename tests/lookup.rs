use dibble::{
    is_valid_word, lookup_path, not_found_message, search_start, search_step, shard_file,
    shard_path_of_lower, Definition, Dictionary, Etymology, Line, PartOfSpeech, Root, Search,
    Sense, WordError,
};

fn sense(text: &str, date: Option<&str>, examples: &[&str]) -> Sense {
    Sense {
        sense: text.to_string(),
        date: date.map(|d| d.to_string()),
        examples: examples.iter().map(|e| e.to_string()).collect(),
    }
}

fn cat() -> Definition {
    Definition {
        word: "cat".to_string(),
        etymologies: vec![Etymology {
            parts_of_speech: vec![PartOfSpeech {
                part_of_speech: "Noun".to_string(),
                senses: vec![
                    sense("A small domesticated feline.", None, &["The cat sat on the mat."]),
                    sense("A person, a fellow.", Some("1920s slang"), &[]),
                ],
            }],
        }],
    }
}

#[test]
fn path_of_two_letter_prefix() {
    assert_eq!(lookup_path("cat"), Ok("c/ca.json".to_string()));
}

#[test]
fn path_of_single_letter_word() {
    assert_eq!(lookup_path("a"), Ok("a/a.json".to_string()));
}

#[test]
fn path_uses_lowercased_word() {
    assert_eq!(lookup_path("Cat"), Ok("c/ca.json".to_string()));
    assert_eq!(lookup_path("CAT"), lookup_path("cat"));
}

#[test]
fn path_of_non_ascii_word() {
    assert_eq!(lookup_path("Éclair"), Ok("é/éc.json".to_string()));
}

#[test]
fn path_is_the_same_on_every_call() {
    for w in ["dog", "Dog", "x", "zebra"] {
        assert_eq!(lookup_path(w), lookup_path(w));
    }
    assert_eq!(lookup_path("dog"), lookup_path("door"));
}

#[test]
fn word_with_digit_is_rejected() {
    assert_eq!(lookup_path("Zz1"), Err(WordError::NotAlphabetic));
}

#[test]
fn word_with_space_or_dash_is_rejected() {
    assert_eq!(lookup_path("ice cream"), Err(WordError::NotAlphabetic));
    assert_eq!(lookup_path("well-known"), Err(WordError::NotAlphabetic));
    assert!(!is_valid_word("a1"));
    assert!(is_valid_word("naïve"));
}

#[test]
fn empty_word_names_no_shard() {
    assert_eq!(lookup_path(""), Err(WordError::Empty));
    assert_eq!(shard_path_of_lower(""), None);
    assert!(is_valid_word(""));
}

#[test]
fn shard_path_of_lowered_input() {
    assert_eq!(shard_path_of_lower("ab"), Some("a/ab.json".to_string()));
    assert_eq!(shard_path_of_lower("q"), Some("q/q.json".to_string()));
}

#[test]
fn lookup_is_case_sensitive() {
    let mut d = Dictionary::new();
    d.insert("apple".to_string(), Definition { word: "apple".to_string(), etymologies: vec![] });
    assert!(d.get(&"apple".to_string()).is_some());
    assert!(d.get(&"Apple".to_string()).is_none());
    d.insert("Apple".to_string(), Definition { word: "Apple".to_string(), etymologies: vec![] });
    assert_eq!(d.get(&"Apple".to_string()).unwrap().word, "Apple");
    assert_eq!(d.get(&"apple".to_string()).unwrap().word, "apple");
}

#[test]
fn insert_replaces_previous_definition() {
    let mut d = Dictionary::new();
    d.insert("cat".to_string(), Definition { word: "old".to_string(), etymologies: vec![] });
    d.insert("cat".to_string(), cat());
    assert_eq!(d.get(&"cat".to_string()), Some(&cat()));
    assert!(d.get(&"dog".to_string()).is_none());
}

#[test]
fn local_root_wins() {
    assert_eq!(search_start(), Search::Probe(Root::Local));
    assert_eq!(search_step(Root::Local, true), Search::Found(Root::Local));
}

#[test]
fn search_falls_through_to_system_root() {
    assert_eq!(search_step(Root::Local, false), Search::Probe(Root::User));
    assert_eq!(search_step(Root::User, false), Search::Probe(Root::System));
    assert_eq!(search_step(Root::User, true), Search::Found(Root::User));
    assert_eq!(search_step(Root::System, true), Search::Found(Root::System));
    assert_eq!(search_step(Root::System, false), Search::Exhausted);
}

#[test]
fn shard_files_under_each_root() {
    assert_eq!(shard_file(Root::Local, "/home/u/.local/share/dibble", "c/ca.json"), "./dict/c/ca.json");
    assert_eq!(
        shard_file(Root::User, "/home/u/.local/share/dibble", "c/ca.json"),
        "/home/u/.local/share/dibble/dict/c/ca.json"
    );
    assert_eq!(
        shard_file(Root::System, "/home/u/.local/share/dibble", "a/a.json"),
        "/usr/share/dibble/dict/a/a.json"
    );
}

#[test]
fn not_found_message_lists_user_and_system_paths() {
    assert_eq!(
        not_found_message("/d", "c/ca.json"),
        "Dictionary file not found. Searched:\n  - /d/dict/c/ca.json\n  - /usr/share/dibble/dict/c/ca.json"
    );
}

#[test]
fn render_single_etymology_with_examples() {
    assert_eq!(
        cat().render(true),
        vec![
            Line::Word("cat".to_string()),
            Line::PartOfSpeech("Noun".to_string()),
            Line::Sense(1, "A small domesticated feline.".to_string()),
            Line::Example("The cat sat on the mat.".to_string()),
            Line::Sense(2, "A person, a fellow.".to_string()),
            Line::Date("1920s slang".to_string()),
            Line::Blank,
        ]
    );
}

#[test]
fn render_without_examples() {
    assert_eq!(
        cat().render(false),
        vec![
            Line::Word("cat".to_string()),
            Line::PartOfSpeech("Noun".to_string()),
            Line::Sense(1, "A small domesticated feline.".to_string()),
            Line::Sense(2, "A person, a fellow.".to_string()),
            Line::Date("1920s slang".to_string()),
            Line::Blank,
        ]
    );
}

#[test]
fn render_several_etymologies_numbers_them() {
    let d = Definition {
        word: "bank".to_string(),
        etymologies: vec![
            Etymology {
                parts_of_speech: vec![
                    PartOfSpeech {
                        part_of_speech: "Noun".to_string(),
                        senses: vec![sense("Edge of a river.", Some(""), &["a"])],
                    },
                    PartOfSpeech {
                        part_of_speech: "Verb".to_string(),
                        senses: vec![sense("To tilt.", None, &[])],
                    },
                ],
            },
            Etymology {
                parts_of_speech: vec![PartOfSpeech {
                    part_of_speech: "Noun".to_string(),
                    senses: vec![sense("A money house.", None, &["x", "y"])],
                }],
            },
        ],
    };
    assert_eq!(
        d.render(true),
        vec![
            Line::Word("bank".to_string()),
            Line::EtymologyHeader(1),
            Line::PartOfSpeech("Noun".to_string()),
            Line::Sense(1, "Edge of a river.".to_string()),
            Line::Example("a".to_string()),
            Line::PartOfSpeech("Verb".to_string()),
            Line::Sense(1, "To tilt.".to_string()),
            Line::Blank,
            Line::EtymologyHeader(2),
            Line::PartOfSpeech("Noun".to_string()),
            Line::Sense(1, "A money house.".to_string()),
            Line::Example("x".to_string()),
            Line::Example("y".to_string()),
            Line::Blank,
        ]
    );
}

#[test]
fn render_word_without_etymologies() {
    let d = Definition { word: "zzz".to_string(), etymologies: vec![] };
    assert_eq!(d.render(true), vec![Line::Word("zzz".to_string())]);
}

#[test]
fn define_renders_found_word_and_misses_other_case() {
    let mut d = Dictionary::new();
    d.insert("cat".to_string(), cat());
    assert_eq!(d.define(&"cat".to_string(), false), Some(cat().render(false)));
    assert_eq!(d.define(&"Cat".to_string(), true), None);
}
