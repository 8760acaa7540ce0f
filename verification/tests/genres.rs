use book_catalog::genre::{get_genre_metas, get_genres, Genre};
use book_catalog::pagination::Pagination;
use book_catalog::source::Source;

fn genre(id: i32, meta: &str) -> Genre {
    Genre {
        id,
        source: Source { id: 1, name: "flibusta".to_string() },
        remote_id: id,
        code: "c".to_string(),
        description: "d".to_string(),
        meta: meta.to_string(),
    }
}

fn genres(metas: &[&str]) -> Vec<Genre> {
    metas.iter().enumerate().map(|(i, m)| genre(i as i32, m)).collect()
}

#[test]
fn metas_come_once_each_in_order() {
    assert_eq!(
        get_genre_metas(&genres(&["prose", "poetry", "prose", "drama", "poetry"])),
        vec!["drama", "poetry", "prose"]
    );
}

#[test]
fn metas_are_ordered_as_strings_are() {
    let metas = ["b", "a", "ab", "", "B", "aa", "я", "z", "é", "a", "😀", "abc"];
    let mut expected: Vec<String> = metas.iter().map(|m| m.to_string()).collect();
    expected.sort();
    expected.dedup();
    assert_eq!(get_genre_metas(&genres(&metas)), expected);
}

#[test]
fn prefix_comes_first() {
    assert_eq!(get_genre_metas(&genres(&["ab", "a", "abc"])), vec!["a", "ab", "abc"]);
    assert_eq!(get_genre_metas(&genres(&["b", "a"])), vec!["a", "b"]);
    assert_eq!(get_genre_metas(&genres(&["a", "b"])), vec!["a", "b"]);
}

#[test]
fn no_genres_give_no_metas() {
    assert_eq!(get_genre_metas(&Vec::new()), Vec::<String>::new());
    assert_eq!(get_genre_metas(&genres(&["x"])), vec!["x"]);
    assert_eq!(get_genre_metas(&genres(&["x", "x", "x"])), vec!["x"]);
}

#[test]
fn genres_are_paged_as_they_come() {
    let page = get_genres(genres(&["b", "a"]), 52, &Pagination { page: 2, size: 25 });
    assert_eq!(page.items, genres(&["b", "a"]));
    assert_eq!(page.total, 52);
    assert_eq!(page.pages, 3);
    assert_eq!(page.page, 2);
    assert_eq!(page.size, 25);
}
