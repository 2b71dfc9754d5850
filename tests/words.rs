use transip_command::{split_in_first_rest, Words};

fn get_words() -> Words {
    Words::from("  Dit is een   test om te kijken of het  werkt   ")
}

fn some(s: &str) -> Option<String> {
    Some(s.to_owned())
}

#[test]
fn words() {
    assert_eq!(
        get_words().rest(),
        some("Dit is een   test om te kijken of het  werkt"),
    );

    {
        let mut words = get_words();
        assert_eq!(words.next(), some("Dit"));
        assert_eq!(words.rest(), some("is een   test om te kijken of het  werkt"));
    }

    {
        let mut words = get_words();
        assert_eq!(words.next(), some("Dit"));
        assert_eq!(words.next(), some("is"));
        assert_eq!(words.rest(), some("een   test om te kijken of het  werkt"));
    }

    {
        let mut words = get_words();
        assert_eq!(words.next(), some("Dit"));
        assert_eq!(words.next(), some("is"));
        assert_eq!(words.next(), some("een"));
        assert_eq!(words.rest(), some("test om te kijken of het  werkt"));
    }
}

#[test]
fn find_first_space() {
    let (first, rest) = split_in_first_rest("list testen maar").unwrap();
    assert_eq!(first, "list");
    assert_eq!(rest, "testen maar");
}

#[test]
fn words_exhausted() {
    let mut words = Words::from(" \t ");
    assert_eq!(words.next(), None);
    assert_eq!(words.rest(), None);
    let mut words = Words::from("one\ttwo");
    assert_eq!(words.next(), some("one"));
    assert_eq!(words.next(), some("two"));
    assert_eq!(words.next(), None);
    let mut words = Words::from("a b");
    assert_eq!(words.rest(), some("a b"));
    assert_eq!(words.next(), None);
}

#[test]
fn split_without_rest() {
    assert_eq!(split_in_first_rest("  list  "), None);
    assert_eq!(split_in_first_rest(""), None);
}
