use egui_inspect::search_select::{
    substring_range, BasicSearch, FuzzySearch, SearchMethod, SearchSelection, TextSearch,
};

fn strings(v: &[&str]) -> Vec<String> {
    v.iter().map(|s| s.to_string()).collect()
}

#[test]
fn substring_range_finds_first() {
    assert_eq!(substring_range("hello world", "world"), Some(6..11));
    assert_eq!(substring_range("abcabc", "bc"), Some(1..3));
    assert_eq!(substring_range("abc", "x"), None);
    assert_eq!(substring_range("abc", ""), Some(0..0));
}

#[test]
fn basic_search_scores_by_start() {
    assert_eq!(BasicSearch::match_idxs("abcabc", "ca"), Some((-2, vec![2, 3])));
    assert_eq!(BasicSearch::match_idxs("abc", "abc"), Some((0, vec![0, 1, 2])));
    assert_eq!(BasicSearch::match_idxs("abc", "d"), None);
}

#[test]
fn fuzzy_search_matches_scattered_letters() {
    assert_eq!(FuzzySearch::match_idxs("abc", ""), Some((0, vec![])));
    let (score, idxs) = FuzzySearch::match_idxs("axbxc", "abc").unwrap();
    assert!(score > 0);
    assert_eq!(idxs, vec![0, 2, 4]);
    assert_eq!(FuzzySearch::match_idxs("abc", "cba"), None);
}

#[test]
fn text_search_ranks_matches() {
    let mut ts = TextSearch::new(strings(&["xab", "ab", "zzab", "none"]), false);
    assert!(ts.input().is_empty());
    assert_eq!(ts.selected(), &None);
    ts.set_input("ab".to_string());
    let order: Vec<usize> = ts.cache().iter().map(|m| m.idx()).collect();
    assert_eq!(order, vec![2, 0, 1]);
    let scores: Vec<i64> = ts.cache().iter().map(|m| m.score()).collect();
    assert_eq!(scores, vec![-2, -1, 0]);
    assert_eq!(ts.cache()[0].char_idxs(), &vec![2, 3]);
}

#[test]
fn text_search_equal_scores_keep_order() {
    let mut ts = TextSearch::new(strings(&["ab1", "ab2", "ab3"]), false);
    ts.set_input("ab".to_string());
    let order: Vec<usize> = ts.cache().iter().map(|m| m.idx()).collect();
    assert_eq!(order, vec![0, 1, 2]);
}

#[test]
fn text_search_empty_query_shows_all() {
    let mut ts = TextSearch::new(strings(&["a", "b", "c"]), true);
    ts.fill_unfiltered();
    let order: Vec<usize> = ts.cache().iter().map(|m| m.idx()).collect();
    assert_eq!(order, vec![0, 1, 2]);
    ts.set_input("b".to_string());
    assert_eq!(ts.cache().len(), 1);
    ts.fill_unfiltered();
    assert_eq!(ts.cache().len(), 1);
    ts.set_input(String::new());
    ts.fill_unfiltered();
    assert_eq!(ts.cache().len(), 3);
}

#[test]
fn text_search_selection() {
    let mut ts = TextSearch::new(strings(&["a", "b"]), false);
    ts.select(1);
    assert_eq!(ts.selected(), &Some(1));
    assert!(*ts.just_clicked());
    ts.begin_frame();
    assert!(!*ts.just_clicked());
    assert_eq!(ts.selected(), &Some(1));
}

#[test]
fn search_selection_labels_and_selection() {
    let mut sel = SearchSelection::new(vec![10u32, 20, 30], |i: &u32| format!("n{i}"));
    assert_eq!(sel.search.options(), &strings(&["n10", "n20", "n30"]));
    assert_eq!(sel.get_selected_ref(), None);
    sel.search.select(1);
    assert_eq!(sel.get_selected_ref(), Some(&20));
    assert_eq!(sel.get_selected(), Some(20));
    *sel.get_selected_mut().unwrap() = 25;
    assert_eq!(sel.items(), &vec![10, 25, 30]);
    assert_eq!(sel.search.options(), &strings(&["n10", "n20", "n30"]));
    sel.reset_search_text();
    assert_eq!(sel.search.options(), &strings(&["n10", "n25", "n30"]));
    assert_eq!(sel.get_selected(), None);
}

#[test]
fn search_selection_mut_items_keeps_query() {
    let mut sel = SearchSelection::new(vec![1u32, 2], |i: &u32| i.to_string());
    sel.search.set_input("2".to_string());
    sel.mut_items_with(|v: &mut Vec<u32>| v.push(22));
    assert_eq!(sel.items(), &vec![1, 2, 22]);
    assert_eq!(sel.search.options(), &strings(&["1", "2", "22"]));
    assert_eq!(sel.search.input(), "2");
    assert_eq!(sel.search.selected(), &None);
}

#[test]
fn reset_search_text_clears_matches() {
    let mut sel = SearchSelection::new(vec![1u32, 12], |i: &u32| i.to_string());
    assert!(sel.search.cache().is_empty());
    assert!(sel.search.display_selected);
    sel.search.set_input("1".to_string());
    assert_eq!(sel.search.cache().len(), 2);
    sel.reset_search_text();
    assert!(sel.search.cache().is_empty());
    assert!(sel.search.input().is_empty());
    assert!(sel.search.display_selected);
}
