use typesensei::query::{QueryBuilder, QueryCounter, QueryState};

#[test]
fn test_rc() {
    // One counter is shared by every per-field state of a query tree.
    let mut counter = QueryCounter::new();
    let mut first = QueryState::new();
    let mut second = QueryState::new();
    first.equals(&mut counter, "1");
    second.equals(&mut counter, "2");
    assert_eq!(counter.value, 2);
}

#[test]
fn filter_clauses_render_their_templates() {
    let mut counter = QueryCounter::new();
    let mut state = QueryState::new();
    state.equals(&mut counter, "1");
    state.not_equals(&mut counter, "2");
    state.greater_than(&mut counter, "3");
    state.greater_or_equals(&mut counter, "4");
    state.less_than(&mut counter, "5");
    state.less_or_equals(&mut counter, "6");
    state.in_range(&mut counter, "7..9");

    let mut builder = QueryBuilder::new();
    builder.collect_state("f", &mut state);
    let query = builder.q(String::new());
    assert_eq!(
        query.filter_by.as_deref(),
        Some("f:=1&&f:!=2&&f:>3&&f:>=4&&f:<5&&f:<=6&&f:[7..9]")
    );
}

#[test]
fn clause_order_follows_call_order_across_fields() {
    // fieldA.equals(1) then fieldB.greater_than(2) renders
    // "fieldA:=1&&fieldB:>2", even when fieldB is collected first.
    let mut counter = QueryCounter::new();
    let mut field_a = QueryState::new();
    let mut field_b = QueryState::new();
    field_a.equals(&mut counter, "1");
    field_b.greater_than(&mut counter, "2");

    let mut builder = QueryBuilder::new();
    builder.collect_state("fieldB", &mut field_b);
    builder.collect_state("fieldA", &mut field_a);
    let query = builder.q(String::from("q"));
    assert_eq!(query.filter_by.as_deref(), Some("fieldA:=1&&fieldB:>2"));
}

#[test]
fn is_one_of_renders_bracketed_list() {
    let mut counter = QueryCounter::new();
    let mut state = QueryState::new();
    let items = vec![String::from("a"), String::from("b"), String::from("c")];
    state.is_one_of(&mut counter, &items);

    let mut builder = QueryBuilder::new();
    builder.collect_state("field", &mut state);
    let query = builder.q(String::new());
    assert_eq!(query.filter_by.as_deref(), Some("field:[a,b,c]"));
}

#[test]
fn sort_and_query_by_join_with_commas() {
    let mut counter = QueryCounter::new();
    let mut title = QueryState::new();
    let mut year = QueryState::new();
    title.query_by(&mut counter);
    year.sort_desc(&mut counter);
    title.sort_asc(&mut counter);

    let mut builder = QueryBuilder::new();
    builder.collect_state("title", &mut title);
    builder.collect_state("year", &mut year);
    let query = builder.q(String::from("hello"));
    assert_eq!(query.q, "hello");
    assert_eq!(query.query_by.as_deref(), Some("title"));
    assert_eq!(query.sort_by.as_deref(), Some("year:desc,title:asc"));
    assert_eq!(query.filter_by, None);
}

#[test]
fn empty_categories_are_absent() {
    let builder = QueryBuilder::new();
    let query = builder.q(String::from("x"));
    assert_eq!(query.query_by, None);
    assert_eq!(query.sort_by, None);
    assert_eq!(query.filter_by, None);
    assert_eq!(query.page, None);
    assert_eq!(query.per_page, None);
    assert_eq!(query.collection, None);
}

#[test]
fn free_form_builder_interleaves_with_field_states() {
    // Mirrors a dynamic-document field contributing raw conditions while a
    // typed field contributes through its own state.
    let mut counter = QueryCounter::new();
    let mut field2 = QueryState::new();
    field2.greater_or_equals(&mut counter, "5332");

    let mut dynamic = QueryBuilder::new();
    dynamic.filter_by(&mut counter, String::from("field3:=something"));
    dynamic.query_by(&mut counter, String::from("field3"));

    let mut builder = QueryBuilder::new();
    builder.collect_state("field2", &mut field2);
    builder.merge(&mut dynamic);
    let query = builder.q(String::from("hello world"));
    assert_eq!(
        query.filter_by.as_deref(),
        Some("field2:>=5332&&field3:=something")
    );
    assert_eq!(query.query_by.as_deref(), Some("field3"));
}

#[test]
fn nested_builders_share_global_order() {
    let mut counter = QueryCounter::new();
    let mut outer_state = QueryState::new();
    let mut inner_state = QueryState::new();

    outer_state.equals(&mut counter, "1");
    inner_state.equals(&mut counter, "2");
    outer_state.not_equals(&mut counter, "3");

    let mut inner = QueryBuilder::new();
    inner.collect_state("inner", &mut inner_state);

    let mut outer = QueryBuilder::new();
    outer.collect_state("outer", &mut outer_state);
    outer.merge(&mut inner);

    let query = outer.q(String::new());
    assert_eq!(
        query.filter_by.as_deref(),
        Some("outer:=1&&inner:=2&&outer:!=3")
    );
}

#[test]
fn take_and_len_report_accumulated_clauses() {
    let mut counter = QueryCounter::new();
    let mut state = QueryState::new();
    state.equals(&mut counter, "1");
    state.equals(&mut counter, "2");
    state.query_by(&mut counter);
    assert_eq!(QueryState::filter_by_len(&state), 2);
    assert_eq!(QueryState::query_by_len(&state), 1);
    assert_eq!(QueryState::sort_by_len(&state), 0);

    let filters = QueryState::take_filter_by(&mut state);
    assert_eq!(filters.len(), 2);
    assert_eq!(QueryState::filter_by_len(&state), 0);
    assert!(QueryState::take_query_by(&mut state).is_some());
    assert!(QueryState::take_sort_by(&mut state).is_none());
}

#[test]
fn search_query_carries_paging() {
    let query = QueryBuilder::new()
        .q(String::from("q"))
        .page(2)
        .per_page(50)
        .collection(String::from("books"));
    assert_eq!(query.page, Some(2));
    assert_eq!(query.per_page, Some(50));
    assert_eq!(query.collection.as_deref(), Some("books"));
}

#[test]
fn a_second_query_by_replaces_the_first() {
    let mut counter = QueryCounter::new();
    let mut state = QueryState::new();
    state.query_by(&mut counter);
    state.query_by(&mut counter);
    assert_eq!(QueryState::query_by_len(&state), 1);
    let mark = QueryState::take_query_by(&mut state).unwrap();
    assert_eq!(mark.order, 1);
}
