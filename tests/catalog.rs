use shelfily::catalog::{
    compare_text, contains_text, item_added_timestamp, item_author_for_sort, item_title_for_sort,
    matches_query, order_by, sort_key, visible_items, ItemSummary, LibrarySortMode, SortKey,
};

fn item(id: &str, title: &str, author: &str, added: Option<u64>) -> ItemSummary {
    ItemSummary {
        id: id.to_string(),
        title: Some(title.to_string()),
        author_name: Some(author.to_string()),
        author_name_lf: None,
        added_at: added,
        created_at: None,
        updated_at: None,
    }
}

fn shelf() -> Vec<ItemSummary> {
    vec![
        item("a", "Dune", "Frank Herbert", Some(10)),
        item("b", "emma", "Jane Austen", Some(30)),
        item("c", "Persuasion", "Jane Austen", Some(20)),
        item("d", "Beloved", "Toni Morrison", Some(30)),
    ]
}

#[test]
fn sort_fields_fall_back() {
    let mut it = item("x", "T", "Plain", None);
    assert_eq!(item_title_for_sort(&it), "T");
    assert_eq!(item_author_for_sort(&it), "Plain");
    it.author_name_lf = Some("Last, First".to_string());
    assert_eq!(item_author_for_sort(&it), "Last, First");
    it.title = None;
    assert_eq!(item_title_for_sort(&it), "");
    assert_eq!(item_added_timestamp(&it), 0);
    it.updated_at = Some(7);
    assert_eq!(item_added_timestamp(&it), 7);
    it.created_at = Some(5);
    assert_eq!(item_added_timestamp(&it), 5);
    it.added_at = Some(3);
    assert_eq!(item_added_timestamp(&it), 3);
}

#[test]
fn newest_first_and_stable() {
    assert_eq!(visible_items(&shelf(), LibrarySortMode::NewlyAdded, ""), vec![1, 3, 2, 0]);
}

#[test]
fn by_title_ignoring_case() {
    assert_eq!(visible_items(&shelf(), LibrarySortMode::TitleAsc, ""), vec![3, 0, 1, 2]);
}

#[test]
fn by_author_then_title() {
    assert_eq!(visible_items(&shelf(), LibrarySortMode::AuthorAsc, ""), vec![0, 1, 2, 3]);
}

#[test]
fn search_title_or_author() {
    assert_eq!(visible_items(&shelf(), LibrarySortMode::TitleAsc, "  AUSTEN "), vec![1, 2]);
    assert_eq!(visible_items(&shelf(), LibrarySortMode::NewlyAdded, "dun"), vec![0]);
    assert_eq!(visible_items(&shelf(), LibrarySortMode::NewlyAdded, "zzz"), Vec::<usize>::new());
    assert_eq!(visible_items(&shelf(), LibrarySortMode::AuthorAsc, "   "), vec![0, 1, 2, 3]);
}

#[test]
fn keys_are_lowercased() {
    let k = sort_key(&item("x", "Emma", "Jane AUSTEN", None), LibrarySortMode::AuthorAsc);
    assert_eq!(k.first, "jane austen");
    assert_eq!(k.second, "emma");
    let k = sort_key(&item("x", "Emma", "Jane", Some(4)), LibrarySortMode::NewlyAdded);
    assert_eq!(k.stamp, 4);
}

#[test]
fn order_of_equal_keys_kept() {
    let keys: Vec<SortKey> = vec![
        SortKey { stamp: 0, first: "b".to_string(), second: String::new() },
        SortKey { stamp: 0, first: "a".to_string(), second: String::new() },
        SortKey { stamp: 0, first: "b".to_string(), second: String::new() },
        SortKey { stamp: 0, first: "a".to_string(), second: String::new() },
    ];
    assert_eq!(order_by(&keys, LibrarySortMode::TitleAsc), vec![1, 3, 0, 2]);
    assert_eq!(order_by(&Vec::new(), LibrarySortMode::TitleAsc), Vec::<usize>::new());
}

#[test]
fn text_comparison() {
    assert_eq!(compare_text("abc", "abd"), -1);
    assert_eq!(compare_text("ab", "abc"), -1);
    assert_eq!(compare_text("b", "abc"), 1);
    assert_eq!(compare_text("", ""), 0);
    assert!(contains_text("hello", "ell"));
    assert!(contains_text("hello", ""));
    assert!(!contains_text("he", "hello"));
    assert!(matches_query("dune", "frank herbert", "herb"));
    assert!(!matches_query("dune", "frank herbert", "emma"));
}
