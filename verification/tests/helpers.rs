use functils::{fst, identity, ifte, snd, uncons};

#[test]
fn fst_works() {
    assert_eq!(fst((1, "Hello")), 1);
}

#[test]
fn snd_works() {
    assert_eq!(snd((1, "Hello")), "Hello");
}

#[test]
fn identity_works() {
    assert_eq!(identity(1), 1);
    assert_eq!(identity(1.0), 1.0);
    assert_eq!(identity("Hi"), "Hi");
}

#[test]
fn ifte_works() {
    assert_eq!(ifte("Hi", "Bye", true), "Hi");
    assert_eq!(ifte("Hi", "Bye", false), "Bye");
}

#[test]
fn fst_and_snd_take_a_pair_apart() {
    let pair = (String::from("left"), vec![1u8, 2, 3]);
    assert_eq!(fst(pair.clone()), "left");
    assert_eq!(snd(pair), vec![1u8, 2, 3]);
}

#[test]
fn identity_keeps_an_owned_value() {
    let words = vec![String::from("a"), String::from("b")];
    assert_eq!(identity(words.clone()), words);
}

#[test]
fn ifte_picks_by_the_condition_only() {
    assert_eq!(ifte(7, 7, true), 7);
    assert_eq!(ifte(1, 2, 1 < 2), 1);
    assert_eq!(ifte(1, 2, 2 < 1), 2);
}

#[test]
fn uncons_of_a_vector_gives_first_and_rest() {
    assert_eq!(uncons(vec![1, 2, 3]), Some((1, vec![2, 3])));
    assert_eq!(uncons(vec!["only"]), Some(("only", vec![])));
}

#[test]
fn uncons_of_an_empty_vector_gives_nothing() {
    let empty: Vec<String> = Vec::new();
    assert_eq!(uncons(empty), None);
}

#[test]
fn uncons_of_a_vector_drains_it_in_order() {
    let mut left = vec![10u32, 20, 30, 40];
    let mut seen = Vec::new();
    while let Some((front, rest)) = uncons(left) {
        seen.push(front);
        left = rest;
    }
    assert_eq!(seen, vec![10u32, 20, 30, 40]);
}
