use graphjin::document::has_mutation;

#[test]
fn first_word_makes_a_mutation() {
    for document in vec![
        "mutation",
        "mutation { users(insert: {id: 1}) { id } }",
        "mutation{a}",
        "mutation M($a: Int) { a }",
        "mutation @d { a }",
        " \t\r\n,\u{feff} mutation { a }",
        "# a comment {\n# another \"\nmutation { a }",
    ] {
        assert!(has_mutation(document), "{:?}", document);
    }
}

#[test]
fn descriptions_and_comments_lead_to_a_mutation() {
    for document in vec![
        "\"d\" mutation{a}",
        "\"mutation\"mutation{a}",
        "\"\"\"a \\\"\"\" } \" b\"\"\"\n# why\nmutation M { a }",
        "# why\n\"d \\\" e\", \"\" mutation { a }",
        "{ a } \"d\" mutation { b }",
    ] {
        assert!(has_mutation(document), "{:?}", document);
    }
    for document in vec![
        "\"d\" query { mutation }",
        "\"d\" { mutation }",
        "\"mutation { a }\"",
        "query \"d\" mutation { a }",
        "{ a(b: \"d\" mutation: 1) }",
    ] {
        assert!(!has_mutation(document), "{:?}", document);
    }
}

#[test]
fn later_definitions_make_a_mutation() {
    for document in vec![
        "{ a } mutation { b }",
        "{a}mutation{b}",
        "query Q($x: In = {y: [1, {z: 2}]}) { a(b: {c: 1}) } mutation { b }",
        "fragment F on T { a } # end\n, mutation { ...F }",
        "{ a(b: \"}\\\"{\") } mutation { b }",
        "{ a(b: \"\\\\\") } mutation { b }",
        "{ a(b: \"\"\"x \\\"\"\" } \" \"\"\") } mutation { b }",
        "{ a(b: \"\", c: \"\"\"\"\"\") } mutation { b }",
        "{ a } } mutation { b }",
    ] {
        assert!(has_mutation(document), "{:?}", document);
    }
}

#[test]
fn the_word_elsewhere_makes_no_mutation() {
    for document in vec![
        "",
        "   ",
        "{ products(limit: 5) { id name price } }",
        "query mutation { a }",
        "query Q { mutation { id } }",
        "{ mutation }",
        "{ a: mutation(mutation: {mutation: 1}) { mutation } }",
        "query Q @d(a: {x: 1} mutation: 2) { a }",
        "query Q($a: In = {x: 1}, $mutation: Int) { a }",
        "mutations { a }",
        "mutation_ { a }",
        "mutation1 { a }",
        "Mutation { a }",
        "mutatio n { a }",
        "# mutation { a }",
        "{ a } # mutation { a }",
        "{ a(b: \"} mutation { c }\") }",
        "{ a(b: \"\\\"} mutation { c }\") }",
        "{ a(b: \"\"\"} mutation \" \\\"\"\" mutation { c }\"\"\") }",
        "\"mutation\" { a }",
        "fragment mutation on T { a } { ...mutation }",
        "{ a(b: \"} mutation { c }",
        "{ a(b: \"\\",
    ] {
        assert!(!has_mutation(document), "{:?}", document);
    }
}
