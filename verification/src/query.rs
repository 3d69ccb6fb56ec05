//! Conditions, modifiers and the per-kind query builders.

use crate::data::{Collection, Group, Media, Tag, User};
use crate::ident::{fresh_uuid, is_random_id};
use uuid::Uuid;
use vstd::prelude::*;

verus! {

/// Describes each format a query may wish to receive the data back as
#[derive(PartialEq, Eq, PartialOrd, Ord, Clone, Copy, Debug, Structural)]
pub enum ReturnType {
    /// The query requests the amount of items that match
    Quantity,
    /// The query requests the items as memory objects
    Objects,
}

/// Represents a fully formed query to send to the database.
/// You may manually create one of these, or use one of the builders to
/// assemble one step by step.
#[derive(Clone, PartialEq)]
pub struct DatabaseQuery {
    /// The type or table the query references
    pub query_type: QueryType,
    /// The conditions required for a match, all of which must hold
    pub conditions: Vec<QueryCondition>,
    /// The format for a return
    pub return_type: ReturnType,
    /// The randomly generated ID of the query
    pub id: Uuid,
}

/// Describes each table, or more generically data type, a query may operate on
#[derive(PartialEq, Eq, PartialOrd, Ord, Clone, Debug)]
#[non_exhaustive]
pub enum QueryType {
    Tags,
    Media,
    Groups,
    Collections,
    Users,
    Other(String),
}

/// Describes queued modifiers for a query condition
#[derive(PartialEq, Eq, Clone, Copy, Debug, Structural)]
pub enum QueryModifier {
    /// Requires the next loaded condition to fail
    Not,
    /// Allows a match from either of the next two loaded conditions
    Or,
}

/// Two query conditions that match if at least one of them matches.
#[derive(PartialEq, Eq, PartialOrd, Ord, Debug)]
pub struct Or(pub QueryCondition, pub QueryCondition);

/// Describes each of the operators that can be found within a query. By default, all conditions are AND.
#[derive(PartialEq, Eq, PartialOrd, Ord, Debug)]
pub enum QueryCondition {
    /// Requires the condition to fail
    Not(Box<QueryCondition>),
    /// Allows a match from either condition's success
    Or(Box<Or>),
    /// Requests objects with the specified ID
    Id(u64),
    /// Requests objects with a name that perfectly matches the provided string
    NameIs(String),
    /// Requests objects with a name that contains the provided string
    NameContains(String),
    /// Requests objects with a name that fuzzy matches the provided string
    NameFuzzy(String),
    /// Requests a maximum amount of objects
    Amount(u32),
    /// Requests the specified number of objects to be skipped before returning
    Skip(u32),
    /// Requests the objects related to an object with the specified ID (shares a collection or group)
    IsRelatedTo(u64),
    /// Requests the tags that are an alias for the specified tag
    IsAliasOf(u64),
    /// Requests the tags that are within the specified group
    IsInGroup(u64),
    /// Requests the media that have the specified custom property
    HasCustomProperty(String),
    /// Requests the media that are within the specified collection
    IsInCollection(u64),
    /// Requests the objects that were created by the specified user
    CreatedBy(u64),
    /// Requests the users that have the specified permissions
    HasPermissions(u64),
    /// Requests the objects that contain the specified id
    Contains(u64),
}

/// The mathematical value of a [`QueryCondition`]: the same tree, with every
/// string replaced by its sequence of characters.
pub enum Condition {
    Not(Box<Condition>),
    Or(Box<Condition>, Box<Condition>),
    Id(u64),
    NameIs(Seq<char>),
    NameContains(Seq<char>),
    NameFuzzy(Seq<char>),
    Amount(u32),
    Skip(u32),
    IsRelatedTo(u64),
    IsAliasOf(u64),
    IsInGroup(u64),
    HasCustomProperty(Seq<char>),
    IsInCollection(u64),
    CreatedBy(u64),
    HasPermissions(u64),
    Contains(u64),
}

impl QueryCondition {
    /// The condition as a tree over character sequences.
    pub open spec fn model(self) -> Condition
        decreases self,
    {
        match self {
            QueryCondition::Not(inner) => Condition::Not(Box::new(inner.model())),
            QueryCondition::Or(pair) => Condition::Or(
                Box::new(pair.0.model()),
                Box::new(pair.1.model()),
            ),
            QueryCondition::Id(id) => Condition::Id(id),
            QueryCondition::NameIs(name) => Condition::NameIs(name@),
            QueryCondition::NameContains(text) => Condition::NameContains(text@),
            QueryCondition::NameFuzzy(text) => Condition::NameFuzzy(text@),
            QueryCondition::Amount(amount) => Condition::Amount(amount),
            QueryCondition::Skip(count) => Condition::Skip(count),
            QueryCondition::IsRelatedTo(id) => Condition::IsRelatedTo(id),
            QueryCondition::IsAliasOf(id) => Condition::IsAliasOf(id),
            QueryCondition::IsInGroup(id) => Condition::IsInGroup(id),
            QueryCondition::HasCustomProperty(key) => Condition::HasCustomProperty(key@),
            QueryCondition::IsInCollection(id) => Condition::IsInCollection(id),
            QueryCondition::CreatedBy(id) => Condition::CreatedBy(id),
            QueryCondition::HasPermissions(id) => Condition::HasPermissions(id),
            QueryCondition::Contains(id) => Condition::Contains(id),
        }
    }
}

impl QueryCondition {
    /// Copies the whole tree.
    pub fn duplicate(&self) -> (copy: QueryCondition)
        ensures
            copy == *self,
        decreases *self,
    {
        match self {
            QueryCondition::Not(inner) => QueryCondition::Not(Box::new(inner.duplicate())),
            QueryCondition::Or(pair) => QueryCondition::Or(
                Box::new(Or(pair.0.duplicate(), pair.1.duplicate())),
            ),
            QueryCondition::Id(id) => QueryCondition::Id(*id),
            QueryCondition::NameIs(name) => QueryCondition::NameIs(name.clone()),
            QueryCondition::NameContains(text) => QueryCondition::NameContains(text.clone()),
            QueryCondition::NameFuzzy(text) => QueryCondition::NameFuzzy(text.clone()),
            QueryCondition::Amount(amount) => QueryCondition::Amount(*amount),
            QueryCondition::Skip(count) => QueryCondition::Skip(*count),
            QueryCondition::IsRelatedTo(id) => QueryCondition::IsRelatedTo(*id),
            QueryCondition::IsAliasOf(id) => QueryCondition::IsAliasOf(*id),
            QueryCondition::IsInGroup(id) => QueryCondition::IsInGroup(*id),
            QueryCondition::HasCustomProperty(key) => QueryCondition::HasCustomProperty(
                key.clone(),
            ),
            QueryCondition::IsInCollection(id) => QueryCondition::IsInCollection(*id),
            QueryCondition::CreatedBy(id) => QueryCondition::CreatedBy(*id),
            QueryCondition::HasPermissions(id) => QueryCondition::HasPermissions(*id),
            QueryCondition::Contains(id) => QueryCondition::Contains(*id),
        }
    }
}

impl Clone for QueryCondition {
    fn clone(&self) -> (copy: Self)
        ensures
            copy == *self,
    {
        self.duplicate()
    }
}

impl Clone for Or {
    fn clone(&self) -> (copy: Self)
        ensures
            copy == *self,
    {
        Or(self.0.duplicate(), self.1.duplicate())
    }
}

impl View for QueryCondition {
    type V = Condition;

    open spec fn view(&self) -> Condition {
        self.model()
    }
}

/// The values of a list of conditions, in the same order.
pub open spec fn models(conditions: Seq<QueryCondition>) -> Seq<Condition> {
    Seq::new(conditions.len(), |i: int| conditions[i]@)
}

/// The value of a [`DatabaseQuery`]: the query with each condition replaced
/// by its value.
pub struct QueryView {
    pub query_type: QueryType,
    pub conditions: Seq<Condition>,
    pub return_type: ReturnType,
    pub id: Uuid,
}

impl View for DatabaseQuery {
    type V = QueryView;

    open spec fn view(&self) -> QueryView {
        QueryView {
            query_type: self.query_type,
            conditions: models(self.conditions@),
            return_type: self.return_type,
            id: self.id,
        }
    }
}

/// The values of a list come one for one from its conditions.
pub proof fn lemma_models_pointwise(conditions: Seq<QueryCondition>)
    ensures
        models(conditions).len() == conditions.len(),
        forall|i: int|
            0 <= i < conditions.len() ==> models(conditions)[i] == (#[trigger] conditions[i])@,
{
}

/// The condition wrapped in `times` negations.
pub open spec fn negated(condition: Condition, times: nat) -> Condition
    decreases times,
{
    if times == 0 {
        condition
    } else {
        Condition::Not(Box::new(negated(condition, (times - 1) as nat)))
    }
}

/// The state of a query under construction, as mathematics.
pub struct DraftView {
    /// The format the finished query will ask for
    pub return_type: ReturnType,
    /// The top-level conditions settled so far, oldest first
    pub conditions: Seq<Condition>,
    /// The left-hand operand of an `Or` that still waits for its right-hand side
    pub accumulator: Option<Condition>,
    /// The queued modifiers; the last one is applied first
    pub modifiers: Seq<QueryModifier>,
}

impl DraftView {
    /// A draft without conditions or modifiers.
    pub open spec fn start(return_type: ReturnType) -> DraftView {
        DraftView {
            return_type,
            conditions: Seq::empty(),
            accumulator: None,
            modifiers: Seq::empty(),
        }
    }

    /// The draft after `modifier` has been queued on top.
    pub open spec fn queue(self, modifier: QueryModifier) -> DraftView {
        DraftView { modifiers: self.modifiers.push(modifier), ..self }
    }

    /// The draft after its top modifier, if any, has been taken off.
    pub open spec fn dequeue(self) -> DraftView {
        if self.modifiers.len() == 0 {
            self
        } else {
            DraftView { modifiers: self.modifiers.drop_last(), ..self }
        }
    }

    /// The same draft with one more top-level condition.
    pub open spec fn settle(self, condition: Condition) -> DraftView {
        DraftView { conditions: self.conditions.push(condition), ..self }
    }

    /// Whether a waiting operand still has a queued `Or` to resolve it.
    pub open spec fn well_formed(self) -> bool {
        self.accumulator is Some ==> self.modifiers.contains(QueryModifier::Or)
    }

    /// Queueing a modifier keeps a draft well formed.
    pub proof fn lemma_queue_well_formed(self, modifier: QueryModifier)
        requires
            self.well_formed(),
        ensures
            self.queue(modifier).well_formed(),
    {
        if self.accumulator is Some {
            let i = choose|i: int|
                0 <= i < self.modifiers.len() && self.modifiers[i] == QueryModifier::Or;
            assert(self.queue(modifier).modifiers[i] == QueryModifier::Or);
        }
    }

    /// The draft after `condition` has been submitted.
    ///
    /// With no modifier queued the condition joins the top-level list. A
    /// queued `Not` is taken off and the negated condition is submitted in
    /// its place. A queued `Or` either keeps the condition as its left-hand
    /// operand and stays queued, or, when an operand is already waiting, is
    /// taken off and the pair is submitted as one condition.
    pub open spec fn submit(self, condition: Condition) -> DraftView
        decreases self.modifiers.len(),
    {
        if self.modifiers.len() == 0 {
            self.settle(condition)
        } else {
            match self.modifiers.last() {
                QueryModifier::Not => self.dequeue().submit(Condition::Not(Box::new(condition))),
                QueryModifier::Or => match self.accumulator {
                    Some(first) => DraftView { accumulator: None, ..self.dequeue() }.submit(
                        Condition::Or(Box::new(first), Box::new(condition)),
                    ),
                    None => DraftView { accumulator: Some(condition), ..self },
                },
            }
        }
    }

    /// The draft after each of `conditions` has been submitted, first to last.
    pub open spec fn submit_all(self, conditions: Seq<Condition>) -> DraftView
        decreases conditions.len(),
    {
        if conditions.len() == 0 {
            self
        } else {
            self.submit_all(conditions.drop_last()).submit(conditions.last())
        }
    }

    /// The draft after `times` modifiers `Not` have been queued.
    pub open spec fn queue_nots(self, times: nat) -> DraftView
        decreases times,
    {
        if times == 0 {
            self
        } else {
            self.queue(QueryModifier::Not).queue_nots((times - 1) as nat)
        }
    }

    /// A fresh draft is well formed.
    pub proof fn lemma_start_well_formed(return_type: ReturnType)
        ensures
            DraftView::start(return_type).well_formed(),
    {
    }

    /// Submitting a condition keeps a draft well formed.
    pub proof fn lemma_submit_well_formed(self, condition: Condition)
        requires
            self.well_formed(),
        ensures
            self.submit(condition).well_formed(),
        decreases self.modifiers.len(),
    {
        if self.modifiers.len() > 0 {
            let rest = self.dequeue();
            match self.modifiers.last() {
                QueryModifier::Not => {
                    if self.accumulator is Some {
                        let i = choose|i: int|
                            0 <= i < self.modifiers.len() && self.modifiers[i] == QueryModifier::Or;
                        assert(rest.modifiers[i] == QueryModifier::Or);
                    }
                    rest.lemma_submit_well_formed(Condition::Not(Box::new(condition)));
                },
                QueryModifier::Or => match self.accumulator {
                    Some(first) => {
                        DraftView { accumulator: None, ..rest }.lemma_submit_well_formed(
                            Condition::Or(Box::new(first), Box::new(condition)),
                        );
                    },
                    None => {
                        assert(self.modifiers[self.modifiers.len() - 1] == QueryModifier::Or);
                    },
                },
            }
        }
    }

    /// Submitting a condition never disturbs what has settled: the earlier
    /// top-level conditions stay in front, in their order, at most one
    /// condition joins them, and no modifier is added.
    pub proof fn lemma_submit_keeps_settled(self, condition: Condition)
        ensures
            self.submit(condition).return_type == self.return_type,
            self.conditions.is_prefix_of(self.submit(condition).conditions),
            self.submit(condition).conditions.len() <= self.conditions.len() + 1,
            self.submit(condition).modifiers.len() <= self.modifiers.len(),
        decreases self.modifiers.len(),
    {
        if self.modifiers.len() > 0 {
            let rest = self.dequeue();
            match self.modifiers.last() {
                QueryModifier::Not => {
                    rest.lemma_submit_keeps_settled(Condition::Not(Box::new(condition)));
                },
                QueryModifier::Or => match self.accumulator {
                    Some(first) => {
                        DraftView { accumulator: None, ..rest }.lemma_submit_keeps_settled(
                            Condition::Or(Box::new(first), Box::new(condition)),
                        );
                    },
                    None => {},
                },
            }
        }
    }

    /// In a well-formed draft without queued modifiers no operand waits:
    /// every condition that was submitted has reached the top-level list.
    pub proof fn lemma_settled_holds_no_operand(self)
        requires
            self.well_formed(),
            self.modifiers.len() == 0,
        ensures
            self.accumulator is None,
    {
    }

    /// Without modifiers, conditions are appended in the order in which they
    /// are submitted, and nothing else changes.
    pub proof fn lemma_plain_conditions_keep_order(self, conditions: Seq<Condition>)
        requires
            self.modifiers.len() == 0,
        ensures
            self.submit_all(conditions) == (DraftView {
                conditions: self.conditions + conditions,
                ..self
            }),
        decreases conditions.len(),
    {
        if conditions.len() == 0 {
            assert(self.conditions + conditions =~= self.conditions);
        } else {
            self.lemma_plain_conditions_keep_order(conditions.drop_last());
            assert((self.conditions + conditions.drop_last()).push(conditions.last())
                =~= self.conditions + conditions);
        }
    }

    /// A fresh draft that receives conditions and no modifiers holds exactly
    /// those conditions, in the order in which they came.
    pub proof fn lemma_fresh_plain_conditions(return_type: ReturnType, conditions: Seq<Condition>)
        ensures
            DraftView::start(return_type).submit_all(conditions).conditions == conditions,
            DraftView::start(return_type).submit_all(conditions).modifiers.len() == 0,
            DraftView::start(return_type).submit_all(conditions).accumulator is None,
    {
        let fresh = DraftView::start(return_type);
        fresh.lemma_plain_conditions_keep_order(conditions);
        assert(fresh.conditions + conditions =~= conditions);
    }

    /// Taking a modifier off right after queueing it restores the draft.
    pub proof fn lemma_queue_then_dequeue(self, modifier: QueryModifier)
        ensures
            self.queue(modifier).dequeue() == self,
            self.queue(modifier).modifiers.last() == modifier,
    {
        assert(self.queue(modifier).modifiers.drop_last() =~= self.modifiers);
    }

    /// A queued `Not` hands the negated condition on to whatever is queued
    /// beneath it.
    pub proof fn lemma_not_defers(self, condition: Condition)
        ensures
            self.queue(QueryModifier::Not).submit(condition) == self.submit(
                Condition::Not(Box::new(condition)),
            ),
    {
        self.lemma_queue_then_dequeue(QueryModifier::Not);
    }

    /// A queued `Or` without an operand keeps the next condition as its
    /// operand and stays queued.
    pub proof fn lemma_or_keeps_left(self, left: Condition)
        requires
            self.accumulator is None,
        ensures
            self.queue(QueryModifier::Or).submit(left) == (DraftView {
                accumulator: Some(left),
                ..self.queue(QueryModifier::Or)
            }),
    {
        self.lemma_queue_then_dequeue(QueryModifier::Or);
    }

    /// A queued `Or` with a waiting operand joins it with the next condition
    /// and hands the pair on to whatever is queued beneath it.
    pub proof fn lemma_or_joins_right(self, left: Condition, right: Condition)
        requires
            self.accumulator == Some(left),
        ensures
            self.queue(QueryModifier::Or).submit(right) == (DraftView {
                accumulator: None,
                ..self
            }).submit(Condition::Or(Box::new(left), Box::new(right))),
    {
        self.lemma_queue_then_dequeue(QueryModifier::Or);
    }

    /// Queued `Not`s compose: each one wraps the condition once more, and a
    /// double negation stays as written.
    pub proof fn lemma_nots_compose(self, times: nat, condition: Condition)
        ensures
            self.queue_nots(times).submit(condition) == self.submit(negated(condition, times)),
        decreases times,
    {
        if times > 0 {
            let once = self.queue(QueryModifier::Not);
            once.lemma_nots_compose((times - 1) as nat, condition);
            self.lemma_not_defers(negated(condition, (times - 1) as nat));
        }
    }

    /// A single queued `Not` negates the next condition.
    pub proof fn lemma_not_negates_next(self, condition: Condition)
        requires
            self.modifiers.len() == 0,
        ensures
            self.queue(QueryModifier::Not).submit(condition) == self.settle(
                Condition::Not(Box::new(condition)),
            ),
    {
        self.lemma_not_defers(condition);
    }

    /// A single queued `Or` joins the next two conditions.
    pub proof fn lemma_or_joins_next_two(self, left: Condition, right: Condition)
        requires
            self.modifiers.len() == 0,
            self.accumulator is None,
        ensures
            self.queue(QueryModifier::Or).submit(left).submit(right) == self.settle(
                Condition::Or(Box::new(left), Box::new(right)),
            ),
    {
        let waiting = DraftView { accumulator: Some(left), ..self };
        self.lemma_or_keeps_left(left);
        waiting.lemma_or_joins_right(left, right);
        assert(DraftView { accumulator: None, ..waiting } == self);
    }

    /// A `Not` queued before an `Or` negates the joined pair.
    pub proof fn lemma_not_or_negates_pair(self, left: Condition, right: Condition)
        requires
            self.modifiers.len() == 0,
            self.accumulator is None,
        ensures
            self.queue(QueryModifier::Not).queue(QueryModifier::Or).submit(left).submit(right)
                == self.settle(
                Condition::Not(Box::new(Condition::Or(Box::new(left), Box::new(right)))),
            ),
    {
        let pair = Condition::Or(Box::new(left), Box::new(right));
        let negating = self.queue(QueryModifier::Not);
        let waiting = DraftView { accumulator: Some(left), ..negating };
        negating.lemma_or_keeps_left(left);
        waiting.lemma_or_joins_right(left, right);
        assert(DraftView { accumulator: None, ..waiting } == negating);
        self.lemma_not_defers(pair);
    }
}

/// The parts every builder collects: the settled conditions, the queued
/// modifiers and the operand of a half-finished `Or`.
pub struct Draft {
    return_type: ReturnType,
    conditions: Vec<QueryCondition>,
    accumulator: Option<QueryCondition>,
    modifiers: Vec<QueryModifier>,
}

impl View for Draft {
    type V = DraftView;

    closed spec fn view(&self) -> DraftView {
        DraftView {
            return_type: self.return_type,
            conditions: models(self.conditions@),
            accumulator: match self.accumulator {
                Some(first) => Some(first@),
                None => None,
            },
            modifiers: self.modifiers@,
        }
    }
}

impl Draft {
    /// Starts an empty draft that will ask for `return_type`.
    pub fn new(return_type: ReturnType) -> (draft: Draft)
        ensures
            draft@ == DraftView::start(return_type),
            draft@.well_formed(),
    {
        let draft = Draft {
            return_type,
            conditions: Vec::new(),
            accumulator: None,
            modifiers: Vec::new(),
        };
        assert(draft@.conditions =~= Seq::empty());
        draft
    }

    /// The number of modifiers that still wait for a condition.
    pub fn queued_modifiers(&self) -> (count: usize)
        ensures
            count == self@.modifiers.len(),
    {
        self.modifiers.len()
    }

    /// Queues a modifier for the next condition.
    pub fn queue_modifier(&mut self, modifier: QueryModifier)
        ensures
            final(self)@ == old(self)@.queue(modifier),
            old(self)@.well_formed() ==> final(self)@.well_formed(),
    {
        proof {
            if old(self)@.well_formed() {
                old(self)@.lemma_queue_well_formed(modifier);
            }
        }
        self.modifiers.push(modifier);
    }

    /// Takes the most recently queued modifier off, if there is one.
    fn dequeue_modifier(&mut self) -> (modifier: Option<QueryModifier>)
        ensures
            final(self)@ == old(self)@.dequeue(),
            modifier == if old(self)@.modifiers.len() == 0 {
                None
            } else {
                Some(old(self)@.modifiers.last())
            },
    {
        self.modifiers.pop()
    }

    /// Submits a condition: the queued modifiers decide what becomes of it.
    pub fn add_condition(&mut self, condition: QueryCondition)
        ensures
            final(self)@ == old(self)@.submit(condition@),
            old(self)@.well_formed() ==> final(self)@.well_formed(),
        decreases old(self)@.modifiers.len(),
    {
        proof {
            if old(self)@.well_formed() {
                old(self)@.lemma_submit_well_formed(condition@);
            }
        }
        match self.dequeue_modifier() {
            Some(QueryModifier::Not) => {
                self.add_condition(QueryCondition::Not(Box::new(condition)));
            },
            Some(QueryModifier::Or) => {
                match self.accumulator.take() {
                    Some(first) => {
                        self.add_condition(QueryCondition::Or(Box::new(Or(first, condition))));
                    },
                    None => {
                        self.queue_modifier(QueryModifier::Or);
                        self.accumulator = Some(condition);
                        assert(self@.modifiers =~= old(self)@.modifiers);
                    },
                }
            },
            None => {
                self.conditions.push(condition);
                assert(self@.conditions =~= old(self)@.conditions.push(condition@));
            },
        }
    }

    /// Turns the draft into a finished query for `query_type` under `id`.
    ///
    /// Only the settled conditions go into the query. Modifiers that are
    /// still queued, and an operand that still waits for its partner, are
    /// dropped.
    pub fn into_query(self, query_type: QueryType, id: Uuid) -> (query: DatabaseQuery)
        ensures
            query@ == (QueryView {
                query_type,
                conditions: self@.conditions,
                return_type: self@.return_type,
                id,
            }),
    {
        DatabaseQuery {
            query_type,
            conditions: self.conditions,
            return_type: self.return_type,
            id,
        }
    }
}

/// An error related to the query.
///
/// `UnknownErrorType` is the type used to represent an error that is not
/// covered by this enum.
#[derive(PartialEq, Clone, Debug)]
pub enum QueryError<UnknownErrorType> {
    /// The query was for a different table/type
    BadType(QueryType),
    /// The query used an operator that was not supported by the database
    Unsupported(QueryCondition),
    /// The user is not authorised to request this data
    Unauthorised,
    /// The query requests conditions that can never match
    ImpossibleQuery,
    /// The query requests a condition that does not apply to the operating type
    BadCondition(QueryCondition),
    /// A modifier was queued but never resolved by a following condition
    BadModifier,
    /// The query was not complete
    Incomplete,
    /// The database terminated the connection
    ConnectionFault(u16),
    /// The database did not respond in time
    ConnectionTimeout,
    /// The adapter did not understand the response from the server
    BadResponse,
    /// An error occurred that is unique to this database form
    Other(UnknownErrorType),
    /// There is no database attached to this instance
    NoDatabase,
}

/// Describes the 3 states a property from a database can be in
#[derive(PartialEq, Eq, PartialOrd, Ord, Debug, Clone)]
pub enum DatabaseValue<T> {
    /// A valid value was assigned to the property
    Present(T),
    /// No value was assigned to the property
    Absent,
    /// The user is not authorised to know the value of this property
    Unauthorised,
}

impl<T: View> View for DatabaseValue<T> {
    type V = DatabaseValue<T::V>;

    open spec fn view(&self) -> DatabaseValue<T::V> {
        match self {
            DatabaseValue::Present(value) => DatabaseValue::Present(value@),
            DatabaseValue::Absent => DatabaseValue::Absent,
            DatabaseValue::Unauthorised => DatabaseValue::Unauthorised,
        }
    }
}

/// The view of a field is in the same state as the field: a missing value is
/// never taken for a denied one, nor a denied one for a missing one.
pub proof fn lemma_view_keeps_state<T: View>(value: DatabaseValue<T>)
    ensures
        value@ is Present <==> value is Present,
        value@ is Absent <==> value is Absent,
        value@ is Unauthorised <==> value is Unauthorised,
        value matches DatabaseValue::Present(inner) ==> value@ == DatabaseValue::Present(inner@),
{
}

/// Describes the possible return types from a database
pub enum DatabaseResult {
    /// The database provided a list of tags
    Tags(Vec<Tag>),
    /// The database provided a list of media objects
    Media(Vec<Media>),
    /// The database provided a list of tag groups
    Groups(Vec<Group>),
    /// The database provided a list of media collections
    Collections(Vec<Collection>),
    /// The database provided a list of users
    Users(Vec<User>),
    /// The database provided an integer
    Integer(u32),
}

/// The operations every per-kind builder offers.
///
/// Conditions are joined by AND in the order in which they settle. `not` and
/// `or` add no condition themselves: they queue a modifier that the next
/// condition consumes.
pub trait QueryBuilder: Sized {
    /// The state of the query under construction.
    spec fn draft(&self) -> DraftView;

    /// The kind of record the finished query asks for.
    spec fn kind() -> QueryType;

    /// Adds the condition to the query
    fn add_condition(&mut self, condition: QueryCondition)
        ensures
            final(self).draft() == old(self).draft().submit(condition@),
    ;

    /// Queues a modifier to the next condition(s) to the query
    fn queue_modifier(&mut self, modifier: QueryModifier)
        ensures
            final(self).draft() == old(self).draft().queue(modifier),
    ;

    /// The number of modifiers that still wait for a condition
    fn queued_modifiers(&self) -> (count: usize)
        ensures
            count == self.draft().modifiers.len(),
    ;

    /// Begins a query that returns the quantity of matches
    fn count() -> (builder: Self)
        ensures
            builder.draft() == DraftView::start(ReturnType::Quantity),
    ;

    /// Begins a query that returns the objects that match the query
    fn all() -> (builder: Self)
        ensures
            builder.draft() == DraftView::start(ReturnType::Objects),
    ;

    /// Completes the query and converts it into a generic [`DatabaseQuery`]
    /// with a newly drawn id.
    ///
    /// Building never fails: modifiers that are still queued, and an operand
    /// that still waits for its partner, are left out of the query. Use
    /// [`QueryBuilder::finalise_checked`] to have them reported instead.
    fn finalise(self) -> (query: DatabaseQuery)
        ensures
            query@.query_type == Self::kind(),
            query@.conditions == self.draft().conditions,
            query@.return_type == self.draft().return_type,
            is_random_id(query@.id),
    ;

    /// Completes the query unless a modifier is still queued, in which case
    /// the query is refused with [`QueryError::BadModifier`]. A query that is
    /// accepted holds every condition that was added: in a well-formed draft
    /// an operand only waits while its `Or` is queued.
    fn finalise_checked<UnknownErrorType>(self) -> (outcome: Result<
        DatabaseQuery,
        QueryError<UnknownErrorType>,
    >)
        ensures
            self.draft().modifiers.len() > 0 ==> outcome == Err::<
                DatabaseQuery,
                QueryError<UnknownErrorType>,
            >(QueryError::BadModifier),
            self.draft().modifiers.len() == 0 ==> outcome is Ok,
            outcome matches Ok(query) ==> {
                &&& query@.query_type == Self::kind()
                &&& query@.conditions == self.draft().conditions
                &&& query@.return_type == self.draft().return_type
                &&& is_random_id(query@.id)
            },
            outcome is Ok && self.draft().well_formed() ==> self.draft().accumulator is None,
    {
        if self.queued_modifiers() > 0 {
            Err(QueryError::BadModifier)
        } else {
            Ok(self.finalise())
        }
    }

    /// Requires the next condition fails
    fn not(&mut self) -> (builder: &mut Self)
        ensures
            builder.draft() == old(self).draft().queue(QueryModifier::Not),
            *final(self) == *final(builder),
    {
        self.queue_modifier(QueryModifier::Not);
        self
    }

    /// Allows a match from either of the next two conditions. Does stack
    fn or(&mut self) -> (builder: &mut Self)
        ensures
            builder.draft() == old(self).draft().queue(QueryModifier::Or),
            *final(self) == *final(builder),
    {
        self.queue_modifier(QueryModifier::Or);
        self
    }

    /// Requests objects with the specified ID
    fn with_id(&mut self, id: u64) -> (builder: &mut Self)
        ensures
            builder.draft() == old(self).draft().submit(Condition::Id(id)),
            *final(self) == *final(builder),
    {
        self.add_condition(QueryCondition::Id(id));
        self
    }

    /// Requests objects with the specified name
    fn with_name(&mut self, name: String) -> (builder: &mut Self)
        ensures
            builder.draft() == old(self).draft().submit(Condition::NameIs(name@)),
            *final(self) == *final(builder),
    {
        self.add_condition(QueryCondition::NameIs(name));
        self
    }

    /// Requests objects with a name that contains the specified text
    fn with_name_containing(&mut self, text: String) -> (builder: &mut Self)
        ensures
            builder.draft() == old(self).draft().submit(Condition::NameContains(text@)),
            *final(self) == *final(builder),
    {
        self.add_condition(QueryCondition::NameContains(text));
        self
    }

    /// Requests objects with a name that fuzzily matches the specified text
    fn with_name_fuzzy(&mut self, text: String) -> (builder: &mut Self)
        ensures
            builder.draft() == old(self).draft().submit(Condition::NameFuzzy(text@)),
            *final(self) == *final(builder),
    {
        self.add_condition(QueryCondition::NameFuzzy(text));
        self
    }

    /// Defines a maximum amount of objects
    fn with_amount(&mut self, amount: u32) -> (builder: &mut Self)
        ensures
            builder.draft() == old(self).draft().submit(Condition::Amount(amount)),
            *final(self) == *final(builder),
    {
        self.add_condition(QueryCondition::Amount(amount));
        self
    }

    /// Requests the specified amount of matches to be ignored before returning
    fn skip_entries(&mut self, count: u32) -> (builder: &mut Self)
        ensures
            builder.draft() == old(self).draft().submit(Condition::Skip(count)),
            *final(self) == *final(builder),
    {
        self.add_condition(QueryCondition::Skip(count));
        self
    }

    /// Requests objects that share a group/collection with the object with the
    /// specified ID. Only checks objects of the same type
    fn related_to(&mut self, id: u64) -> (builder: &mut Self)
        ensures
            builder.draft() == old(self).draft().submit(Condition::IsRelatedTo(id)),
            *final(self) == *final(builder),
    {
        self.add_condition(QueryCondition::IsRelatedTo(id));
        self
    }

    /// Requests objects that have the specified custom property
    fn has_custom_property(&mut self, property: String) -> (builder: &mut Self)
        ensures
            builder.draft() == old(self).draft().submit(Condition::HasCustomProperty(property@)),
            *final(self) == *final(builder),
    {
        self.add_condition(QueryCondition::HasCustomProperty(property));
        self
    }
}

/// Describes a query about Tags
pub struct TagQuery {
    draft: Draft,
}

impl QueryBuilder for TagQuery {
    closed spec fn draft(&self) -> DraftView {
        self.draft@
    }

    open spec fn kind() -> QueryType {
        QueryType::Tags
    }

    fn add_condition(&mut self, condition: QueryCondition) {
        self.draft.add_condition(condition);
    }

    fn queue_modifier(&mut self, modifier: QueryModifier) {
        self.draft.queue_modifier(modifier);
    }

    fn queued_modifiers(&self) -> (count: usize) {
        self.draft.queued_modifiers()
    }

    fn count() -> (builder: Self) {
        TagQuery { draft: Draft::new(ReturnType::Quantity) }
    }

    fn all() -> (builder: Self) {
        TagQuery { draft: Draft::new(ReturnType::Objects) }
    }

    fn finalise(self) -> (query: DatabaseQuery) {
        self.draft.into_query(QueryType::Tags, fresh_uuid())
    }
}

impl TagQuery {
    /// Requests tags that are an alias to the specified tag
    pub fn alias_of(&mut self, id: u64) -> (builder: &mut Self)
        ensures
            builder.draft() == old(self).draft().submit(Condition::IsAliasOf(id)),
            *final(self) == *final(builder),
    {
        self.add_condition(QueryCondition::IsAliasOf(id));
        self
    }

    /// Requests tags that are in the specified group
    pub fn in_group(&mut self, id: u64) -> (builder: &mut Self)
        ensures
            builder.draft() == old(self).draft().submit(Condition::IsInGroup(id)),
            *final(self) == *final(builder),
    {
        self.add_condition(QueryCondition::IsInGroup(id));
        self
    }

    /// Requests objects that were created by the specified user
    pub fn created_by(&mut self, id: u64) -> (builder: &mut Self)
        ensures
            builder.draft() == old(self).draft().submit(Condition::CreatedBy(id)),
            *final(self) == *final(builder),
    {
        self.add_condition(QueryCondition::CreatedBy(id));
        self
    }
}

/// Describes a query about Media
pub struct MediaQuery {
    draft: Draft,
}

impl QueryBuilder for MediaQuery {
    closed spec fn draft(&self) -> DraftView {
        self.draft@
    }

    open spec fn kind() -> QueryType {
        QueryType::Media
    }

    fn add_condition(&mut self, condition: QueryCondition) {
        self.draft.add_condition(condition);
    }

    fn queue_modifier(&mut self, modifier: QueryModifier) {
        self.draft.queue_modifier(modifier);
    }

    fn queued_modifiers(&self) -> (count: usize) {
        self.draft.queued_modifiers()
    }

    fn count() -> (builder: Self) {
        MediaQuery { draft: Draft::new(ReturnType::Quantity) }
    }

    fn all() -> (builder: Self) {
        MediaQuery { draft: Draft::new(ReturnType::Objects) }
    }

    fn finalise(self) -> (query: DatabaseQuery) {
        self.draft.into_query(QueryType::Media, fresh_uuid())
    }
}

impl MediaQuery {
    /// Requests objects that were created by the specified user
    pub fn created_by(&mut self, id: u64) -> (builder: &mut Self)
        ensures
            builder.draft() == old(self).draft().submit(Condition::CreatedBy(id)),
            *final(self) == *final(builder),
    {
        self.add_condition(QueryCondition::CreatedBy(id));
        self
    }

    /// Requests media that is in the specified collection
    pub fn in_collection(&mut self, id: u64) -> (builder: &mut Self)
        ensures
            builder.draft() == old(self).draft().submit(Condition::IsInCollection(id)),
            *final(self) == *final(builder),
    {
        self.add_condition(QueryCondition::IsInCollection(id));
        self
    }
}

/// Describes a query about Groups
pub struct GroupQuery {
    draft: Draft,
}

impl QueryBuilder for GroupQuery {
    closed spec fn draft(&self) -> DraftView {
        self.draft@
    }

    open spec fn kind() -> QueryType {
        QueryType::Groups
    }

    fn add_condition(&mut self, condition: QueryCondition) {
        self.draft.add_condition(condition);
    }

    fn queue_modifier(&mut self, modifier: QueryModifier) {
        self.draft.queue_modifier(modifier);
    }

    fn queued_modifiers(&self) -> (count: usize) {
        self.draft.queued_modifiers()
    }

    fn count() -> (builder: Self) {
        GroupQuery { draft: Draft::new(ReturnType::Quantity) }
    }

    fn all() -> (builder: Self) {
        GroupQuery { draft: Draft::new(ReturnType::Objects) }
    }

    fn finalise(self) -> (query: DatabaseQuery) {
        self.draft.into_query(QueryType::Groups, fresh_uuid())
    }
}

impl GroupQuery {
    /// Requests objects that were created by the specified user
    pub fn created_by(&mut self, id: u64) -> (builder: &mut Self)
        ensures
            builder.draft() == old(self).draft().submit(Condition::CreatedBy(id)),
            *final(self) == *final(builder),
    {
        self.add_condition(QueryCondition::CreatedBy(id));
        self
    }

    /// Requests groups that include the specified tag
    pub fn contains_media(&mut self, id: u64) -> (builder: &mut Self)
        ensures
            builder.draft() == old(self).draft().submit(Condition::Contains(id)),
            *final(self) == *final(builder),
    {
        self.add_condition(QueryCondition::Contains(id));
        self
    }
}

/// Describes a query about Collections
pub struct CollectionQuery {
    draft: Draft,
}

impl QueryBuilder for CollectionQuery {
    closed spec fn draft(&self) -> DraftView {
        self.draft@
    }

    open spec fn kind() -> QueryType {
        QueryType::Collections
    }

    fn add_condition(&mut self, condition: QueryCondition) {
        self.draft.add_condition(condition);
    }

    fn queue_modifier(&mut self, modifier: QueryModifier) {
        self.draft.queue_modifier(modifier);
    }

    fn queued_modifiers(&self) -> (count: usize) {
        self.draft.queued_modifiers()
    }

    fn count() -> (builder: Self) {
        CollectionQuery { draft: Draft::new(ReturnType::Quantity) }
    }

    fn all() -> (builder: Self) {
        CollectionQuery { draft: Draft::new(ReturnType::Objects) }
    }

    fn finalise(self) -> (query: DatabaseQuery) {
        self.draft.into_query(QueryType::Collections, fresh_uuid())
    }
}

impl CollectionQuery {
    /// Requests objects that were created by the specified user
    pub fn created_by(&mut self, id: u64) -> (builder: &mut Self)
        ensures
            builder.draft() == old(self).draft().submit(Condition::CreatedBy(id)),
            *final(self) == *final(builder),
    {
        self.add_condition(QueryCondition::CreatedBy(id));
        self
    }

    /// Requests collections that include the specified media
    pub fn contains_media(&mut self, id: u64) -> (builder: &mut Self)
        ensures
            builder.draft() == old(self).draft().submit(Condition::Contains(id)),
            *final(self) == *final(builder),
    {
        self.add_condition(QueryCondition::Contains(id));
        self
    }
}

/// Describes a query about Users
pub struct UserQuery {
    draft: Draft,
}

impl QueryBuilder for UserQuery {
    closed spec fn draft(&self) -> DraftView {
        self.draft@
    }

    open spec fn kind() -> QueryType {
        QueryType::Users
    }

    fn add_condition(&mut self, condition: QueryCondition) {
        self.draft.add_condition(condition);
    }

    fn queue_modifier(&mut self, modifier: QueryModifier) {
        self.draft.queue_modifier(modifier);
    }

    fn queued_modifiers(&self) -> (count: usize) {
        self.draft.queued_modifiers()
    }

    fn count() -> (builder: Self) {
        UserQuery { draft: Draft::new(ReturnType::Quantity) }
    }

    fn all() -> (builder: Self) {
        UserQuery { draft: Draft::new(ReturnType::Objects) }
    }

    fn finalise(self) -> (query: DatabaseQuery) {
        self.draft.into_query(QueryType::Users, fresh_uuid())
    }
}

impl UserQuery {
    /// Requests objects that were created by the specified user
    pub fn created_by(&mut self, id: u64) -> (builder: &mut Self)
        ensures
            builder.draft() == old(self).draft().submit(Condition::CreatedBy(id)),
            *final(self) == *final(builder),
    {
        self.add_condition(QueryCondition::CreatedBy(id));
        self
    }
}

} // verus!
