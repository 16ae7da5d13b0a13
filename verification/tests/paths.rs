use fluvio_duck::json::{check_path, select, PathClass};

fn paths(tokens: &[&str], depth: usize) -> Vec<String> {
    let mut all = vec![String::new()];
    let mut last = vec![String::new()];
    for _ in 0..depth {
        let mut next = Vec::new();
        for prefix in last.iter() {
            for token in tokens {
                next.push(format!("{}{}", prefix, token));
            }
        }
        all.extend(next.iter().cloned());
        last = next;
    }
    all
}

fn walk_all(tokens: &[&str], depth: usize, docs: &[&[u8]]) -> usize {
    let mut served = 0;
    for path in paths(tokens, depth) {
        let class = check_path(&path);
        if class != PathClass::Steady && class != PathClass::Unsteady {
            assert_eq!(select(docs[0], &path), None, "{}", path);
            continue;
        }
        served += 1;
        for doc in docs.iter() {
            let first = select(doc, &path).expect("a served path");
            assert!(first.is_ok(), "{}", path);
            if class == PathClass::Steady {
                assert_eq!(first, select(doc, &path).expect("a served path"), "{}", path);
            }
        }
    }
    served
}

#[test]
fn served_paths_always_return() {
    let tokens = [
        "\"a\"", "\"b\"", ".", "[0]", "[]", "[7]", "!", "\"x y\"", "x", "[", "]", "\"", "\\", "=", "-", "999999999",
    ];
    let docs: [&[u8]; 8] = [
        b"null",
        b"7",
        b"\"text\"",
        b"[]",
        b"[1, [2, [3]], {\"a\": 4}]",
        b"{}",
        b"{\"a\": {\"b\": [1, 2], \"a\": null, \"x y\": true}, \"b\": [[], {\"a\": 1}]}",
        b"{\"a\": [{\"b\": 1}, {\"b\": 2}, 3]}",
    ];
    assert!(walk_all(&tokens, 3, &docs) > 500);
}

#[test]
fn spreading_and_truncating_paths_always_return() {
    let tokens = ["..", "\"a\".\"b\"", "\"a\"", ".[1]", "[00]", "!", ".", "\"\\\"\"", "[]"];
    let docs: [&[u8]; 5] = [
        b"[[1, [2]], [[3], 4], {\"a\": {\"b\": [5, [6]]}}]",
        b"{\"a\": {\"b\": {\"c\": {\"d\": 1}}, \"\\\"\": [1, 2]}, \"\\\"\": {\"a\": 2}}",
        b"{\"a\": [[1, 2], [3, [4, 5]]]}",
        b"[]",
        b"true",
    ];
    assert!(walk_all(&tokens, 4, &docs) > 500);
}

const NESTED: [&[u8]; 7] = [
    b"null",
    b"[]",
    b"[[0, 1, 2], {\"a\": 1, \"b\": [3, 4]}, [{\"a\": [5, 6, 7]}]]",
    b"{}",
    b"{\"a\": {\"a\": [1, 2, 3], \"b\": {\"a\": 1}}, \"b\": [{\"a\": 1, \"b\": 2}, [7, 8]]}",
    b"{\"a\": [[{\"b\": 1}], [2, 3]], \"b\": 3}",
    b"[{\"a\": 1}, {\"b\": 2}, {\"a\": 3, \"b\": 4}]",
];

const LISTS: [&[u8]; 7] = [
    b"7",
    b"[]",
    b"[{\"a\": 1, \"b\": [1, 2]}, {\"a\": \"1\"}, {\"b\": {\"a\": null}}, [1, 2], 3, null]",
    b"{\"a\": [{\"a\": [{\"a\": 1}, {\"b\": 2}], \"b\": 1}, {\"b\": [[1], [2]]}, []]}",
    b"{\"a\": {\"a\": 1}}",
    b"[[{\"a\": 1}], [{\"a\": [1, 2]}], [[]], []]",
    b"[{\"a\": null, \"b\": 1}, {\"a\": 1}]",
];

#[test]
fn several_groups_and_indexes_always_return() {
    let tokens = ["\"a\"", ",", "[0,1]", "[2,0,5]", ".", "[1]", "\"b\"", "[]"];
    assert!(walk_all(&tokens, 4, &NESTED) > 500);
}

#[test]
fn several_properties_always_return() {
    let tokens = ["\"a\"", ",", "{\"a\",\"b\"}", "{\"a\"}", ".", "[1]", "{\"b\",\"c\",\"a\"}", " "];
    assert!(walk_all(&tokens, 4, &NESTED) > 500);
}

#[test]
fn filters_always_return() {
    let tokens = ["\"a\"", "|", "[0]", "[0,1]", "{\"a\",\"b\"}", "{\"b\"}", "[]", "\"b\""];
    assert!(walk_all(&tokens, 4, &LISTS) > 500);
}

#[test]
fn lenses_always_return() {
    let tokens = ["\"a\"", "|", "={\"a\"}", "={\"a\":\"1\",\"b\"}", ".", "!", "..", "[0]"];
    assert!(walk_all(&tokens, 4, &LISTS) > 500);
}

#[test]
fn ranges_always_return() {
    let tokens = ["\"a\"", "[0:1]", "[:2]", "[1:1]", "[:]", "[0:]", "[2:1]", "[1:]", ".", "|", "[0]", ","];
    assert!(walk_all(&tokens, 3, &NESTED) > 300);
    assert!(walk_all(&tokens, 3, &LISTS) > 300);
}

#[test]
fn ranges_after_names_always_return() {
    let tokens = ["\"a\".", "\"b\".", "[0:1]", "[:0]", "[3:7]", "[:]", "[0:]", "[5:5]"];
    let docs: [&[u8]; 6] = [
        b"{\"a\": [], \"b\": [1]}",
        b"{\"a\": [1, 2, 3], \"b\": {\"a\": [[1, 2], [3]]}}",
        b"{\"a\": {\"b\": [0, 1, 2, 3, 4, 5, 6, 7, 8]}, \"b\": [[0, 1, 2, 3, 4, 5], []]}",
        b"{\"a\": [[[1, 2, 3, 4, 5, 6, 7, 8], [1]], [[], [1, 2, 3]]]}",
        b"[1, 2, 3, 4, 5]",
        b"{\"a\": 1}",
    ];
    assert!(walk_all(&tokens, 4, &docs) > 300);
}
