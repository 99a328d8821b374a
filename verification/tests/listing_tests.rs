use ygg_admin::listing::{
    comments_prev_route, jump_page, last_page, next_page, picker_page_fix, prev_page, route_page,
    show_pagination, Listing, Row,
};

fn page(ids: &[i64]) -> Listing<&'static str> {
    let rows: Vec<Row<&'static str>> = ids.iter().map(|&id| Row { id, item: "x" }).collect();
    Listing::new(rows, 10)
}

#[test]
fn selecting_and_deselecting_rows() {
    let mut l = page(&[1, 2, 3]);
    l.set_selected(2, true);
    l.set_selected(2, true);
    assert_eq!(l.selected.len(), 1);
    assert!(l.is_selected(2));
    l.set_selected(2, false);
    assert!(l.selected.is_empty());
}

#[test]
fn header_checkbox_selects_then_unselects_the_page() {
    let mut l = page(&[1, 2]);
    l.set_selected(9, true);
    l.toggle_all();
    assert!(l.all_selected());
    let mut s: Vec<i64> = l.selected.iter().copied().collect();
    s.sort();
    assert_eq!(s, vec![1, 2, 9]);
    l.toggle_all();
    assert_eq!(l.selected.len(), 1);
    assert!(l.is_selected(9));
}

#[test]
fn removal_is_optimistic() {
    let mut l = page(&[1, 2, 3]);
    l.set_selected(2, true);
    l.remove(2);
    assert_eq!(l.rows.iter().map(|r| r.id).collect::<Vec<_>>(), vec![1, 3]);
    assert_eq!(l.total, 9);
    assert!(l.selected.is_empty());
}

#[test]
fn batch_removal_clears_selection() {
    let mut l = page(&[1, 2, 3]);
    l.set_selected(1, true);
    l.set_selected(3, true);
    l.remove_selected();
    assert_eq!(l.rows.iter().map(|r| r.id).collect::<Vec<_>>(), vec![2]);
    assert_eq!(l.total, 8);
    assert!(l.selected.is_empty());
}

#[test]
fn emptying_the_trash() {
    let mut l = page(&[1, 2]);
    l.set_selected(1, true);
    l.clear_all();
    assert!(l.rows.is_empty());
    assert_eq!(l.total, 0);
    assert!(l.selected.is_empty());
}

#[test]
fn take_and_set_item() {
    let mut l = page(&[1, 2]);
    l.set_item(2, "y");
    assert_eq!(l.rows[1].item, "y");
    l.set_selected(1, true);
    assert_eq!(l.take_selection(), vec![1]);
    assert!(l.selected.is_empty());
}

#[test]
fn paging_arithmetic() {
    assert_eq!(prev_page(1), 1);
    assert_eq!(prev_page(5), 4);
    assert_eq!(next_page(5), 6);
    assert_eq!(last_page(0, 60), 1);
    assert_eq!(last_page(61, 60), 2);
    assert_eq!(last_page(120, 60), 2);
    assert_eq!(picker_page_fix(true, 5, 61, 60), Some(2));
    assert_eq!(picker_page_fix(false, 5, 61, 60), None);
    assert_eq!(jump_page(0), 1);
    assert!(show_pagination(61, 60));
    assert!(!show_pagination(60, 60));
    assert_eq!(route_page(-3), 1);
    assert_eq!(comments_prev_route(2), None);
    assert_eq!(comments_prev_route(4), Some(3));
}
