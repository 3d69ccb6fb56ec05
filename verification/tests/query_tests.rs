use std::collections::HashSet;

use ammuto_core::query::{
    CollectionQuery, DatabaseQuery, Draft, GroupQuery, MediaQuery, Or, QueryBuilder,
    QueryCondition, QueryError, QueryModifier, QueryType, ReturnType, TagQuery, UserQuery,
};
use uuid::Uuid;

fn or_of(left: QueryCondition, right: QueryCondition) -> QueryCondition {
    QueryCondition::Or(Box::new(Or(left, right)))
}

fn not_of(inner: QueryCondition) -> QueryCondition {
    QueryCondition::Not(Box::new(inner))
}

#[test]
fn plain_conditions_keep_their_order() {
    let mut builder = TagQuery::all();
    builder.with_id(3);
    builder.with_name(String::from("holiday"));
    builder.with_amount(10);
    builder.skip_entries(20);
    let query = builder.finalise();
    assert_eq!(
        query.conditions,
        vec![
            QueryCondition::Id(3),
            QueryCondition::NameIs(String::from("holiday")),
            QueryCondition::Amount(10),
            QueryCondition::Skip(20),
        ]
    );
}

#[test]
fn many_plain_conditions_keep_their_order() {
    let mut builder = MediaQuery::count();
    let mut expected = Vec::new();
    for id in 0..50u64 {
        builder.with_id(id);
        expected.push(QueryCondition::Id(id));
    }
    assert_eq!(builder.finalise().conditions, expected);
}

#[test]
fn empty_builder_gives_no_conditions() {
    let query = TagQuery::count().finalise();
    assert!(query.conditions.is_empty());
}

#[test]
fn not_wraps_the_next_condition() {
    let mut builder = TagQuery::all();
    builder.not();
    builder.with_id(5);
    let query = builder.finalise();
    assert_eq!(query.conditions, vec![not_of(QueryCondition::Id(5))]);
}

#[test]
fn not_applies_to_one_condition_only() {
    let mut builder = TagQuery::all();
    builder.not();
    builder.with_id(5);
    builder.with_id(6);
    let query = builder.finalise();
    assert_eq!(
        query.conditions,
        vec![not_of(QueryCondition::Id(5)), QueryCondition::Id(6)]
    );
}

#[test]
fn or_joins_the_next_two_conditions() {
    let mut builder = TagQuery::all();
    builder.or();
    builder.with_id(1);
    builder.with_id(2);
    let query = builder.finalise();
    assert_eq!(
        query.conditions,
        vec![or_of(QueryCondition::Id(1), QueryCondition::Id(2))]
    );
}

#[test]
fn not_queued_before_or_negates_the_pair() {
    let mut builder = TagQuery::all();
    builder.not();
    builder.or();
    builder.with_id(1);
    builder.with_id(2);
    let query = builder.finalise();
    assert_eq!(
        query.conditions,
        vec![not_of(or_of(QueryCondition::Id(1), QueryCondition::Id(2)))]
    );
}

#[test]
fn double_not_is_kept_as_written() {
    let mut builder = GroupQuery::all();
    builder.not();
    builder.not();
    builder.with_id(9);
    let query = builder.finalise();
    assert_eq!(query.conditions, vec![not_of(not_of(QueryCondition::Id(9)))]);
}

#[test]
fn not_queued_after_or_negates_the_left_operand() {
    let mut builder = TagQuery::all();
    builder.or();
    builder.not();
    builder.with_id(1);
    builder.with_id(2);
    let query = builder.finalise();
    assert_eq!(
        query.conditions,
        vec![or_of(not_of(QueryCondition::Id(1)), QueryCondition::Id(2))]
    );
}

#[test]
fn not_between_operands_negates_the_right_operand() {
    let mut builder = TagQuery::all();
    builder.or();
    builder.with_id(1);
    builder.not();
    builder.with_id(2);
    let query = builder.finalise();
    assert_eq!(
        query.conditions,
        vec![or_of(QueryCondition::Id(1), not_of(QueryCondition::Id(2)))]
    );
}

#[test]
fn two_ors_nest_pairwise_over_three_conditions() {
    let mut builder = TagQuery::all();
    builder.or();
    builder.or();
    builder.with_id(1);
    builder.with_id(2);
    builder.with_id(3);
    let query = builder.finalise();
    assert_eq!(
        query.conditions,
        vec![or_of(
            or_of(QueryCondition::Id(1), QueryCondition::Id(2)),
            QueryCondition::Id(3)
        )]
    );
}

#[test]
fn two_ors_with_two_conditions_leave_one_dangling() {
    let mut builder = TagQuery::all();
    builder.or();
    builder.or();
    builder.with_id(1);
    builder.with_id(2);
    assert_eq!(builder.queued_modifiers(), 1);
    let query = builder.finalise();
    assert!(query.conditions.is_empty());
}

#[test]
fn dangling_modifier_is_dropped_by_finalise() {
    let mut builder = TagQuery::all();
    builder.with_id(4);
    builder.not();
    let query = builder.finalise();
    assert_eq!(query.conditions, vec![QueryCondition::Id(4)]);
}

#[test]
fn dangling_not_is_reported_by_finalise_checked() {
    let mut builder = TagQuery::all();
    builder.with_id(4);
    builder.not();
    let outcome = builder.finalise_checked::<()>();
    assert!(matches!(outcome, Err(QueryError::BadModifier)));
}

#[test]
fn half_finished_or_is_reported_by_finalise_checked() {
    let mut builder = UserQuery::count();
    builder.or();
    builder.with_id(1);
    let outcome = builder.finalise_checked::<String>();
    assert!(matches!(outcome, Err(QueryError::BadModifier)));
}

#[test]
fn finalise_checked_accepts_a_settled_query() {
    let mut builder = CollectionQuery::count();
    builder.or();
    builder.with_id(1);
    builder.with_id(2);
    let outcome = builder.finalise_checked::<()>();
    match outcome {
        Ok(query) => {
            assert_eq!(query.query_type, QueryType::Collections);
            assert_eq!(query.return_type, ReturnType::Quantity);
            assert_eq!(
                query.conditions,
                vec![or_of(QueryCondition::Id(1), QueryCondition::Id(2))]
            );
        }
        Err(_) => panic!("a settled query was refused"),
    }
}

#[test]
fn count_and_all_fix_the_return_type() {
    assert_eq!(TagQuery::count().finalise().return_type, ReturnType::Quantity);
    assert_eq!(TagQuery::all().finalise().return_type, ReturnType::Objects);
    assert_eq!(MediaQuery::count().finalise().return_type, ReturnType::Quantity);
    assert_eq!(MediaQuery::all().finalise().return_type, ReturnType::Objects);
    assert_eq!(GroupQuery::count().finalise().return_type, ReturnType::Quantity);
    assert_eq!(GroupQuery::all().finalise().return_type, ReturnType::Objects);
    assert_eq!(CollectionQuery::count().finalise().return_type, ReturnType::Quantity);
    assert_eq!(CollectionQuery::all().finalise().return_type, ReturnType::Objects);
    assert_eq!(UserQuery::count().finalise().return_type, ReturnType::Quantity);
    assert_eq!(UserQuery::all().finalise().return_type, ReturnType::Objects);
}

#[test]
fn each_builder_targets_its_own_kind() {
    assert_eq!(TagQuery::all().finalise().query_type, QueryType::Tags);
    assert_eq!(MediaQuery::all().finalise().query_type, QueryType::Media);
    assert_eq!(GroupQuery::all().finalise().query_type, QueryType::Groups);
    assert_eq!(CollectionQuery::all().finalise().query_type, QueryType::Collections);
    assert_eq!(UserQuery::all().finalise().query_type, QueryType::Users);
}

#[test]
fn shared_methods_add_their_conditions() {
    let mut builder = MediaQuery::all();
    builder.with_id(1);
    builder.with_name(String::from("a"));
    builder.with_name_containing(String::from("b"));
    builder.with_name_fuzzy(String::from("c"));
    builder.with_amount(2);
    builder.skip_entries(3);
    builder.related_to(4);
    builder.has_custom_property(String::from("d"));
    assert_eq!(
        builder.finalise().conditions,
        vec![
            QueryCondition::Id(1),
            QueryCondition::NameIs(String::from("a")),
            QueryCondition::NameContains(String::from("b")),
            QueryCondition::NameFuzzy(String::from("c")),
            QueryCondition::Amount(2),
            QueryCondition::Skip(3),
            QueryCondition::IsRelatedTo(4),
            QueryCondition::HasCustomProperty(String::from("d")),
        ]
    );
}

#[test]
fn tag_methods_add_their_conditions() {
    let mut builder = TagQuery::all();
    builder.alias_of(1);
    builder.in_group(2);
    builder.created_by(3);
    assert_eq!(
        builder.finalise().conditions,
        vec![
            QueryCondition::IsAliasOf(1),
            QueryCondition::IsInGroup(2),
            QueryCondition::CreatedBy(3),
        ]
    );
}

#[test]
fn media_methods_add_their_conditions() {
    let mut builder = MediaQuery::all();
    builder.created_by(1);
    builder.in_collection(2);
    assert_eq!(
        builder.finalise().conditions,
        vec![QueryCondition::CreatedBy(1), QueryCondition::IsInCollection(2)]
    );
}

#[test]
fn group_methods_add_their_conditions() {
    let mut builder = GroupQuery::all();
    builder.created_by(1);
    builder.contains_media(2);
    assert_eq!(
        builder.finalise().conditions,
        vec![QueryCondition::CreatedBy(1), QueryCondition::Contains(2)]
    );
}

#[test]
fn collection_methods_add_their_conditions() {
    let mut builder = CollectionQuery::all();
    builder.created_by(1);
    builder.contains_media(2);
    assert_eq!(
        builder.finalise().conditions,
        vec![QueryCondition::CreatedBy(1), QueryCondition::Contains(2)]
    );
}

#[test]
fn user_methods_add_their_conditions() {
    let mut builder = UserQuery::all();
    builder.created_by(8);
    assert_eq!(builder.finalise().conditions, vec![QueryCondition::CreatedBy(8)]);
}

#[test]
fn kind_specific_conditions_take_modifiers_too() {
    let mut builder = TagQuery::all();
    builder.not();
    builder.or();
    builder.alias_of(1);
    builder.in_group(2);
    assert_eq!(
        builder.finalise().conditions,
        vec![not_of(or_of(
            QueryCondition::IsAliasOf(1),
            QueryCondition::IsInGroup(2)
        ))]
    );
}

#[test]
fn calls_can_be_chained() {
    let mut builder = TagQuery::all();
    builder.not().with_id(5).or().with_id(1).with_id(2).created_by(7);
    assert_eq!(
        builder.finalise().conditions,
        vec![
            not_of(QueryCondition::Id(5)),
            or_of(QueryCondition::Id(1), QueryCondition::Id(2)),
            QueryCondition::CreatedBy(7),
        ]
    );
}

#[test]
fn modifiers_can_be_queued_directly() {
    let mut builder = TagQuery::all();
    builder.queue_modifier(QueryModifier::Not);
    assert_eq!(builder.queued_modifiers(), 1);
    builder.add_condition(QueryCondition::HasPermissions(3));
    assert_eq!(builder.queued_modifiers(), 0);
    assert_eq!(
        builder.finalise().conditions,
        vec![not_of(QueryCondition::HasPermissions(3))]
    );
}

#[test]
fn query_ids_do_not_repeat() {
    let mut seen = HashSet::new();
    for _ in 0..2000 {
        let query = TagQuery::all().finalise();
        assert!(seen.insert(query.id));
    }
}

#[test]
fn query_ids_carry_the_mark_of_a_random_identifier() {
    for _ in 0..500 {
        let query = MediaQuery::count().finalise();
        assert_eq!(query.id.as_u64_pair().1 >> 62, 0b10);
        let checked = GroupQuery::all().finalise_checked::<()>();
        match checked {
            Ok(query) => assert_eq!(query.id.as_u64_pair().1 >> 62, 0b10),
            Err(_) => panic!("a settled query was refused"),
        }
    }
}

#[test]
fn independent_builders_get_different_ids() {
    let first = TagQuery::all().finalise();
    let second = TagQuery::all().finalise();
    assert_ne!(first.id, second.id);
}

#[test]
fn a_cloned_condition_equals_its_source() {
    let condition = not_of(or_of(
        QueryCondition::NameIs(String::from("x")),
        QueryCondition::Skip(2),
    ));
    assert_eq!(condition.clone(), condition);
    assert_eq!(condition.duplicate(), condition);
    let pair = Or(QueryCondition::Id(1), QueryCondition::NameFuzzy(String::from("y")));
    assert_eq!(pair.clone(), pair);
}

#[test]
fn a_cloned_query_equals_its_source() {
    let mut builder = TagQuery::all();
    builder.or().with_id(1).with_name(String::from("n"));
    let query: DatabaseQuery = builder.finalise();
    let copy = query.clone();
    assert!(copy == query);
    assert_eq!(copy.id, query.id);
}

#[test]
fn a_draft_becomes_a_query_under_the_given_id() {
    let mut draft = Draft::new(ReturnType::Objects);
    draft.queue_modifier(QueryModifier::Or);
    draft.add_condition(QueryCondition::Contains(1));
    assert_eq!(draft.queued_modifiers(), 1);
    draft.add_condition(QueryCondition::Contains(2));
    assert_eq!(draft.queued_modifiers(), 0);
    draft.add_condition(QueryCondition::Amount(5));
    let id = Uuid::from_u128(77);
    let query = draft.into_query(QueryType::Other(String::from("notes")), id);
    assert_eq!(query.id, id);
    assert_eq!(query.query_type, QueryType::Other(String::from("notes")));
    assert_eq!(query.return_type, ReturnType::Objects);
    assert_eq!(
        query.conditions,
        vec![
            or_of(QueryCondition::Contains(1), QueryCondition::Contains(2)),
            QueryCondition::Amount(5),
        ]
    );
}

#[test]
fn three_nots_negate_three_times() {
    let mut builder = TagQuery::all();
    builder.not().not().not().with_name_fuzzy(String::from("sea"));
    assert_eq!(
        builder.finalise().conditions,
        vec![not_of(not_of(not_of(QueryCondition::NameFuzzy(String::from("sea")))))]
    );
}
