//! The field catalog and the two outbound protocol messages.

use vstd::prelude::*;

verus! {

/// One scalar quantity of the live-measurement feed.
#[derive(Clone, Copy, Debug, PartialEq, Eq, Structural)]
pub enum Field {
    TimeStamp,
    Power,
    LastMeterConsumption,
    AccumulatedProduction,
    AccumulatedConsumption,
    AccumulatedConsumptionLastHour,
    AccumulatedProductionLastHour,
    AccumulatedCost,
    AccumulatedReward,
    Currency,
    MinPower,
    AveragePower,
    MaxPower,
    PowerProduction,
    PowerReactive,
    PowerProductionReactive,
    MinPowerProduction,
    MaxPowerProduction,
    LastMeterProduction,
    PowerFactor,
    VoltagePhase1,
    VoltagePhase2,
    VoltagePhase3,
    CurrentL1,
    CurrentL2,
    CurrentL3,
    SignalStrength,
}

impl Field {
    /// The label under which the feed knows this field.
    pub open spec fn wire_label(self) -> Seq<char> {
        match self {
            Field::TimeStamp => "timestamp"@,
            Field::Power => "power"@,
            Field::LastMeterConsumption => "lastMeterConsumption"@,
            Field::AccumulatedProduction => "accumulatedProduction"@,
            Field::AccumulatedConsumption => "accumulatedConsumption"@,
            Field::AccumulatedConsumptionLastHour => "accumulatedConsumptionLastHour"@,
            Field::AccumulatedProductionLastHour => "accumulatedProductionLastHour"@,
            Field::AccumulatedCost => "accumulatedCost"@,
            Field::AccumulatedReward => "accumulatedReward"@,
            Field::Currency => "currency"@,
            Field::MinPower => "minPower"@,
            Field::AveragePower => "averagePower"@,
            Field::MaxPower => "maxPower"@,
            Field::PowerProduction => "powerProduction"@,
            Field::PowerReactive => "powerReactive"@,
            Field::PowerProductionReactive => "powerProductionReactive"@,
            Field::MinPowerProduction => "minPowerProduction"@,
            Field::MaxPowerProduction => "maxPowerProduction"@,
            Field::LastMeterProduction => "lastMeterProduction"@,
            Field::PowerFactor => "powerFactor"@,
            Field::VoltagePhase1 => "voltagePhase1"@,
            Field::VoltagePhase2 => "voltagePhase2"@,
            Field::VoltagePhase3 => "voltagePhase3"@,
            Field::CurrentL1 => "currentL1"@,
            Field::CurrentL2 => "currentL2"@,
            Field::CurrentL3 => "currentL3"@,
            Field::SignalStrength => "signalStrength"@,
        }
    }

    /// The wire label as a string slice.
    pub fn as_str(&self) -> (label: &'static str)
        ensures
            label@ == self.wire_label(),
    {
        match self {
            Field::TimeStamp => "timestamp",
            Field::Power => "power",
            Field::LastMeterConsumption => "lastMeterConsumption",
            Field::AccumulatedProduction => "accumulatedProduction",
            Field::AccumulatedConsumption => "accumulatedConsumption",
            Field::AccumulatedConsumptionLastHour => "accumulatedConsumptionLastHour",
            Field::AccumulatedProductionLastHour => "accumulatedProductionLastHour",
            Field::AccumulatedCost => "accumulatedCost",
            Field::AccumulatedReward => "accumulatedReward",
            Field::Currency => "currency",
            Field::MinPower => "minPower",
            Field::AveragePower => "averagePower",
            Field::MaxPower => "maxPower",
            Field::PowerProduction => "powerProduction",
            Field::PowerReactive => "powerReactive",
            Field::PowerProductionReactive => "powerProductionReactive",
            Field::MinPowerProduction => "minPowerProduction",
            Field::MaxPowerProduction => "maxPowerProduction",
            Field::LastMeterProduction => "lastMeterProduction",
            Field::PowerFactor => "powerFactor",
            Field::VoltagePhase1 => "voltagePhase1",
            Field::VoltagePhase2 => "voltagePhase2",
            Field::VoltagePhase3 => "voltagePhase3",
            Field::CurrentL1 => "currentL1",
            Field::CurrentL2 => "currentL2",
            Field::CurrentL3 => "currentL3",
            Field::SignalStrength => "signalStrength",
        }
    }

    /// The wire label as an owned string.
    pub fn to_string(&self) -> (label: String)
        ensures
            label@ == self.wire_label(),
    {
        String::from_str(self.as_str())
    }
}

/// What stands between two field labels inside the query: a line break as
/// JSON writes it inside a string, a backslash followed by the letter n.
pub open spec fn label_separator() -> Seq<char> {
    "\\n"@
}

/// The labels of `fields`, in order, with `label_separator` between each two
/// neighbours. Nothing is dropped and nothing is merged: a field that was
/// selected twice is listed twice.
pub open spec fn joined_labels(fields: Seq<Field>) -> Seq<char>
    decreases fields.len(),
{
    if fields.len() == 0 {
        Seq::empty()
    } else if fields.len() == 1 {
        fields[0].wire_label()
    } else {
        joined_labels(fields.drop_last()) + label_separator() + fields.last().wire_label()
    }
}

/// The connection-init message for the credential `token`.
pub open spec fn connection_text(token: Seq<char>) -> Seq<char> {
    "{\"type\":\"connection_init\",\"payload\":{\"token\":\""@ + token + "\"}}"@
}

/// The part of the subscribe message that comes before the field lines.
pub open spec fn subscription_head(home_id: Seq<char>) -> Seq<char> {
    "{\"id\":\"1\",\"type\":\"subscribe\",\"payload\":{\"variables\":{},\"extensions\":{},\"query\":\"subscription {\\n  liveMeasurement(homeId: \\\""@
        + home_id + "\\\") {\\n    "@
}

/// The part of the subscribe message that comes after the field lines.
pub open spec fn subscription_tail() -> Seq<char> {
    "\\n}\\n}\\n\"}}"@
}

/// The subscribe message that asks for the field lines `fields` of the home
/// `home_id`.
pub open spec fn subscription_text(home_id: Seq<char>, fields: Seq<char>) -> Seq<char> {
    subscription_head(home_id) + fields + subscription_tail()
}

/// Where the label of the field at `index` begins inside
/// `joined_labels(fields)`: behind all earlier labels and their separators.
pub open spec fn label_offset(fields: Seq<Field>, index: int) -> int
    decreases index,
{
    if index <= 0 {
        0
    } else {
        label_offset(fields, index - 1) + fields[index - 1].wire_label().len()
            + label_separator().len()
    }
}

/// A subscription request: the credential, the home it asks for, and the
/// field lines of the query.
#[derive(Debug)]
pub struct SubscriptionQuery {
    pub token: String,
    pub home_id: String,
    pub fields: String,
}

impl SubscriptionQuery {
    /// The first outbound frame of a session.
    pub open spec fn connection_message(&self) -> Seq<char> {
        connection_text(self.token@)
    }

    /// The second outbound frame of a session.
    pub open spec fn subscription_message(&self) -> Seq<char> {
        subscription_text(self.home_id@, self.fields@)
    }

    pub fn new(token: String, home_id: String, fields: String) -> (query: Self)
        ensures
            query.token == token,
            query.home_id == home_id,
            query.fields == fields,
    {
        Self { token, home_id, fields }
    }

    /// Renders the connection-init message. Neither the credential nor
    /// anything else is escaped.
    pub fn connection(&self) -> (message: String)
        ensures
            message@ == self.connection_message(),
    {
        let mut message = String::from_str("{\"type\":\"connection_init\",\"payload\":{\"token\":\"");
        message.append(self.token.as_str());
        message.append("\"}}");
        message
    }

    /// Renders the subscribe message. The home identifier and the field
    /// lines are placed into the template as they are.
    pub fn subscription(&self) -> (message: String)
        ensures
            message@ == self.subscription_message(),
    {
        let mut message = String::from_str(
            "{\"id\":\"1\",\"type\":\"subscribe\",\"payload\":{\"variables\":{},\"extensions\":{},\"query\":\"subscription {\\n  liveMeasurement(homeId: \\\"",
        );
        message.append(self.home_id.as_str());
        message.append("\\\") {\\n    ");
        message.append(self.fields.as_str());
        message.append("\\n}\\n}\\n\"}}");
        message
    }
}

/// Collects the credential, the home and a selection of fields, and builds
/// the subscription request from them.
pub struct SubscriptionQueryBuilder {
    token: String,
    home_id: String,
    fields: Vec<Field>,
}

impl SubscriptionQueryBuilder {
    /// The credential the builder was made with.
    pub closed spec fn token(&self) -> Seq<char> {
        self.token@
    }

    /// The home the builder was made with.
    pub closed spec fn home_id(&self) -> Seq<char> {
        self.home_id@
    }

    /// The fields selected so far, in the order in which they were added.
    pub closed spec fn selection(&self) -> Seq<Field> {
        self.fields@
    }

    /// Whether `query` is what this builder builds.
    pub open spec fn builds(&self, query: SubscriptionQuery) -> bool {
        &&& query.token@ == self.token()
        &&& query.home_id@ == self.home_id()
        &&& query.fields@ == joined_labels(self.selection())
    }

    pub fn new(token: String, home_id: String) -> (builder: SubscriptionQueryBuilder)
        ensures
            builder.token() == token@,
            builder.home_id() == home_id@,
            builder.selection() == Seq::<Field>::empty(),
    {
        SubscriptionQueryBuilder { token, home_id, fields: Vec::new() }
    }

    /// Adds `field` at the end of the selection.
    pub fn with(self, field: Field) -> (builder: SubscriptionQueryBuilder)
        ensures
            builder.token() == self.token(),
            builder.home_id() == self.home_id(),
            builder.selection() == self.selection().push(field),
    {
        let mut builder = self;
        builder.fields.push(field);
        builder
    }

    /// Builds the request. The field lines are the labels of the selection,
    /// joined by `label_separator`; an empty selection gives empty field
    /// lines.
    pub fn build(self) -> (query: SubscriptionQuery)
        ensures
            self.builds(query),
    {
        let mut lines = String::new();
        let mut i: usize = 0;
        while i < self.fields.len()
            invariant
                i <= self.fields.len(),
                lines@ == joined_labels(self.fields@.take(i as int)),
            decreases self.fields.len() - i,
        {
            proof {
                let next = self.fields@.take(i + 1);
                assert(next.drop_last() == self.fields@.take(i as int));
                assert(next.last() == self.fields@[i as int]);
            }
            if i > 0 {
                lines.append("\\n");
            }
            lines.append(self.fields[i].as_str());
            i = i + 1;
        }
        assert(self.fields@.take(i as int) == self.fields@);
        SubscriptionQuery::new(self.token, self.home_id, lines)
    }
}

impl From<SubscriptionQueryBuilder> for SubscriptionQuery {
    /// Same as `SubscriptionQueryBuilder::build`.
    fn from(builder: SubscriptionQueryBuilder) -> (query: SubscriptionQuery)
        ensures
            builder.builds(query),
    {
        builder.build()
    }
}

impl vstd::std_specs::convert::FromSpecImpl<SubscriptionQueryBuilder> for SubscriptionQuery {
    /// The conversion is specified by the `ensures` of `from`, over the views
    /// of the strings; no request is named as the one result.
    open spec fn obeys_from_spec() -> bool {
        false
    }

    open spec fn from_spec(builder: SubscriptionQueryBuilder) -> SubscriptionQuery {
        arbitrary()
    }
}

/// Three marks of a label that no two labels of the catalog share: its
/// length, its second character and its last one.
spec fn label_marks(label: Seq<char>) -> (nat, char, char) {
    (label.len(), label[1], label[label.len() - 1])
}

/// The marks of each field's label, read off the catalog.
spec fn field_marks(field: Field) -> (nat, char, char) {
    match field {
        Field::TimeStamp => (9, 'i', 'p'),
        Field::Power => (5, 'o', 'r'),
        Field::LastMeterConsumption => (20, 'a', 'n'),
        Field::AccumulatedProduction => (21, 'c', 'n'),
        Field::AccumulatedConsumption => (22, 'c', 'n'),
        Field::AccumulatedConsumptionLastHour => (30, 'c', 'r'),
        Field::AccumulatedProductionLastHour => (29, 'c', 'r'),
        Field::AccumulatedCost => (15, 'c', 't'),
        Field::AccumulatedReward => (17, 'c', 'd'),
        Field::Currency => (8, 'u', 'y'),
        Field::MinPower => (8, 'i', 'r'),
        Field::AveragePower => (12, 'v', 'r'),
        Field::MaxPower => (8, 'a', 'r'),
        Field::PowerProduction => (15, 'o', 'n'),
        Field::PowerReactive => (13, 'o', 'e'),
        Field::PowerProductionReactive => (23, 'o', 'e'),
        Field::MinPowerProduction => (18, 'i', 'n'),
        Field::MaxPowerProduction => (18, 'a', 'n'),
        Field::LastMeterProduction => (19, 'a', 'n'),
        Field::PowerFactor => (11, 'o', 'r'),
        Field::VoltagePhase1 => (13, 'o', '1'),
        Field::VoltagePhase2 => (13, 'o', '2'),
        Field::VoltagePhase3 => (13, 'o', '3'),
        Field::CurrentL1 => (9, 'u', '1'),
        Field::CurrentL2 => (9, 'u', '2'),
        Field::CurrentL3 => (9, 'u', '3'),
        Field::SignalStrength => (14, 'i', 'h'),
    }
}

proof fn lemma_field_marks(field: Field)
    ensures
        label_marks(field.wire_label()) == field_marks(field),
{
    reveal_strlit("timestamp");
    reveal_strlit("power");
    reveal_strlit("lastMeterConsumption");
    reveal_strlit("accumulatedProduction");
    reveal_strlit("accumulatedConsumption");
    reveal_strlit("accumulatedConsumptionLastHour");
    reveal_strlit("accumulatedProductionLastHour");
    reveal_strlit("accumulatedCost");
    reveal_strlit("accumulatedReward");
    reveal_strlit("currency");
    reveal_strlit("minPower");
    reveal_strlit("averagePower");
    reveal_strlit("maxPower");
    reveal_strlit("powerProduction");
    reveal_strlit("powerReactive");
    reveal_strlit("powerProductionReactive");
    reveal_strlit("minPowerProduction");
    reveal_strlit("maxPowerProduction");
    reveal_strlit("lastMeterProduction");
    reveal_strlit("powerFactor");
    reveal_strlit("voltagePhase1");
    reveal_strlit("voltagePhase2");
    reveal_strlit("voltagePhase3");
    reveal_strlit("currentL1");
    reveal_strlit("currentL2");
    reveal_strlit("currentL3");
    reveal_strlit("signalStrength");
}

/// The catalog is one-to-one: no two fields share a wire label.
pub proof fn lemma_wire_label_is_one_to_one(a: Field, b: Field)
    requires
        a.wire_label() == b.wire_label(),
    ensures
        a == b,
{
    lemma_field_marks(a);
    lemma_field_marks(b);
}

/// The offset of a label depends on the fields before it alone.
proof fn lemma_label_offset_of_prefix(fields: Seq<Field>, count: int, index: int)
    requires
        0 <= index <= count <= fields.len(),
    ensures
        label_offset(fields.take(count), index) == label_offset(fields, index),
    decreases index,
{
    if index > 0 {
        lemma_label_offset_of_prefix(fields, count, index - 1);
    }
}

/// The field lines hold the labels of the selection and the separators
/// between them, and nothing else: the label of the field at `index` stands
/// at `label_offset(fields, index)`, a separator follows it unless it is the
/// last, and the last label ends the lines.
pub proof fn lemma_labels_in_selection_order(fields: Seq<Field>, index: int)
    requires
        0 <= index < fields.len(),
    ensures
        ({
            let lines = joined_labels(fields);
            let start = label_offset(fields, index);
            let end = start + fields[index].wire_label().len();
            let after = end + label_separator().len();
            &&& 0 <= start <= end <= lines.len()
            &&& lines.subrange(start, end) == fields[index].wire_label()
            &&& index + 1 < fields.len() ==> after <= lines.len() && lines.subrange(end, after)
                == label_separator()
            &&& index + 1 == fields.len() ==> end == lines.len()
        }),
    decreases fields.len(),
{
    if fields.len() > 1 {
        let earlier = fields.drop_last();
        let count = earlier.len() as int;
        assert(earlier == fields.take(count));
        lemma_label_offset_of_prefix(fields, count, count);
        lemma_labels_in_selection_order(earlier, count - 1);
        if index < count {
            lemma_label_offset_of_prefix(fields, count, index);
            lemma_labels_in_selection_order(earlier, index);
        }
    }
}

/// Every selected field is asked for where the template has its field lines:
/// in a subscribe message built from a selection, the label of the field at
/// `index` stands behind the head of the template, at its offset within the
/// field lines.
pub proof fn lemma_subscription_lists_selection(
    home_id: Seq<char>,
    fields: Seq<Field>,
    index: int,
)
    requires
        0 <= index < fields.len(),
    ensures
        ({
            let message = subscription_text(home_id, joined_labels(fields));
            let start = subscription_head(home_id).len() + label_offset(fields, index);
            let end = start + fields[index].wire_label().len();
            &&& 0 <= start <= end <= message.len() - subscription_tail().len()
            &&& message.subrange(start, end) == fields[index].wire_label()
        }),
{
    lemma_labels_in_selection_order(fields, index);
}

/// Building is a function of what the builder was given: two builders with
/// the same credential, the same home and the same selection build requests
/// whose two messages are the same, character for character.
pub proof fn lemma_build_is_deterministic(
    first: SubscriptionQueryBuilder,
    second: SubscriptionQueryBuilder,
    first_query: SubscriptionQuery,
    second_query: SubscriptionQuery,
)
    requires
        first.token() == second.token(),
        first.home_id() == second.home_id(),
        first.selection() == second.selection(),
        first.builds(first_query),
        second.builds(second_query),
    ensures
        first_query.connection_message() == second_query.connection_message(),
        first_query.subscription_message() == second_query.subscription_message(),
{
}

} // verus!
