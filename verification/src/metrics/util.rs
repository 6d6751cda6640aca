//! Descriptors, label pairs and metric families, and the rule by which optional values become
//! samples: a value that is absent gives no sample at all.
use crate::number::Ratio;
use vstd::prelude::*;

verus! {

/// One label of a sample: the label's name and its value.
#[derive(Debug)]
pub struct LabelPair {
    pub name: String,
    pub value: String,
}

impl DeepView for LabelPair {
    type V = (Seq<char>, Seq<char>);

    open spec fn deep_view(&self) -> (Seq<char>, Seq<char>) {
        (self.name@, self.value@)
    }
}

impl LabelPair {
    pub fn new(name: &str, value: &str) -> (l: LabelPair)
        ensures
            l.deep_view() == (name@, value@),
    {
        LabelPair { name: name.to_owned(), value: value.to_owned() }
    }

    pub fn copy(&self) -> (l: LabelPair)
        ensures
            l.deep_view() == self.deep_view(),
    {
        LabelPair { name: self.name.clone(), value: self.value.clone() }
    }
}

#[derive(Clone, Copy, Debug, PartialEq, Eq, Structural)]
pub enum MetricType {
    Counter,
    Gauge,
}

/// An exported series: its name, its help text and the names of its labels.
#[derive(Debug)]
pub struct Desc {
    pub fq_name: String,
    pub help: String,
    pub variable_labels: Vec<String>,
}

pub struct DescModel {
    pub fq_name: Seq<char>,
    pub help: Seq<char>,
    pub variable_labels: Seq<Seq<char>>,
}

impl DeepView for Desc {
    type V = DescModel;

    open spec fn deep_view(&self) -> DescModel {
        DescModel {
            fq_name: self.fq_name@,
            help: self.help@,
            variable_labels: self.variable_labels.deep_view(),
        }
    }
}

/// One sample: the labels of the entity it belongs to, and its value.
#[derive(Debug)]
pub struct Metric {
    pub label: Vec<LabelPair>,
    pub value: Ratio,
}

pub struct MetricModel {
    pub label: Seq<(Seq<char>, Seq<char>)>,
    pub value: Ratio,
}

impl DeepView for Metric {
    type V = MetricModel;

    open spec fn deep_view(&self) -> MetricModel {
        MetricModel { label: self.label.deep_view(), value: self.value }
    }
}

/// The samples of one series.
#[derive(Debug)]
pub struct MetricFamily {
    pub name: String,
    pub help: String,
    pub field_type: MetricType,
    pub metric: Vec<Metric>,
}

pub struct FamilyModel {
    pub name: Seq<char>,
    pub help: Seq<char>,
    pub field_type: MetricType,
    pub metric: Seq<MetricModel>,
}

impl DeepView for MetricFamily {
    type V = FamilyModel;

    open spec fn deep_view(&self) -> FamilyModel {
        FamilyModel {
            name: self.name@,
            help: self.help@,
            field_type: self.field_type,
            metric: self.metric.deep_view(),
        }
    }
}

/// The family of `desc` with the samples `metric`.
pub open spec fn family_of(desc: DescModel, field_type: MetricType, metric: Seq<MetricModel>)
    -> FamilyModel {
    FamilyModel { name: desc.fq_name, help: desc.help, field_type, metric }
}

/// The family of `desc` with one sample.
pub open spec fn single(
    desc: DescModel,
    field_type: MetricType,
    label: Seq<(Seq<char>, Seq<char>)>,
    value: Ratio,
) -> FamilyModel {
    family_of(desc, field_type, seq![MetricModel { label, value }])
}

/// What an optional value adds to the families gathered so far: one family with one sample
/// when it is present, nothing when it is absent.
pub open spec fn maybe(
    desc: DescModel,
    field_type: MetricType,
    label: Seq<(Seq<char>, Seq<char>)>,
    value: Option<Ratio>,
) -> Seq<FamilyModel> {
    match value {
        Some(v) => seq![single(desc, field_type, label, v)],
        None => Seq::empty(),
    }
}

/// The integer `n` as a sample value.
pub open spec fn whole(n: Option<u64>) -> Option<Ratio> {
    match n {
        Some(v) => Some(Ratio { num: v as u128, den: 1 }),
        None => None,
    }
}

/// Whether `prometheus::core::Desc::new` accepts a descriptor with this name, help text and
/// label names, and no constant labels.
pub uninterp spec fn desc_accepted(
    fq_name: Seq<char>,
    help: Seq<char>,
    variable_labels: Seq<Seq<char>>,
) -> bool;

/// Whether the registry's own descriptor accepts what `m` holds.
pub open spec fn accepted(m: DescModel) -> bool {
    desc_accepted(m.fq_name, m.help, m.variable_labels)
}

/// A descriptor that the registry refuses.
#[derive(Debug)]
pub struct InvalidDesc {
    pub fq_name: String,
}

/// Asks `prometheus::core::Desc::new`, with no constant labels, whether it accepts the
/// descriptor. The answer depends on the three arguments alone; the source shows that an
/// empty help text is refused.
#[verifier::external_body]
fn registry_accepts(fq_name: &str, help: &str, variable_labels: &Vec<String>) -> (ok: bool)
    ensures
        ok == desc_accepted(fq_name@, help@, variable_labels.deep_view()),
        help@.len() == 0 ==> !ok,
{
    prometheus::core::Desc::new(
        fq_name.to_owned(),
        help.to_owned(),
        variable_labels.clone(),
        std::collections::HashMap::new(),
    ).is_ok()
}

impl Desc {
    /// The descriptor with these parts if `accepted` says that the registry takes it.
    pub fn checked(fq_name: &str, help: &str, variable_labels: Vec<String>, accepted: bool) -> (r:
        Result<Desc, InvalidDesc>)
        ensures
            accepted ==> r is Ok && r->Ok_0.deep_view() == (DescModel {
                fq_name: fq_name@,
                help: help@,
                variable_labels: variable_labels.deep_view(),
            }),
            !accepted ==> r is Err && r->Err_0.fq_name@ == fq_name@,
    {
        if accepted {
            Ok(Desc { fq_name: fq_name.to_owned(), help: help.to_owned(), variable_labels })
        } else {
            Err(InvalidDesc { fq_name: fq_name.to_owned() })
        }
    }

    /// The descriptor with these parts, or an error when the registry's rules refuse it.
    pub fn new(fq_name: &str, help: &str, variable_labels: Vec<String>) -> (r: Result<
        Desc,
        InvalidDesc,
    >)
        ensures
            r is Ok <==> desc_accepted(fq_name@, help@, variable_labels.deep_view()),
            r is Ok ==> r->Ok_0.deep_view() == (DescModel {
                fq_name: fq_name@,
                help: help@,
                variable_labels: variable_labels.deep_view(),
            }),
            r is Err ==> r->Err_0.fq_name@ == fq_name@,
            help@.len() == 0 ==> r is Err,
    {
        let accepted = registry_accepts(fq_name, help, &variable_labels);
        Desc::checked(fq_name, help, variable_labels, accepted)
    }

    /// The descriptor `fq_name` without labels.
    pub fn plain(fq_name: &str, help: &str) -> (r: Result<Desc, InvalidDesc>)
        ensures
            r is Ok <==> accepted(described(fq_name@, help@, Seq::empty())),
            r is Ok ==> r->Ok_0.deep_view() == described(fq_name@, help@, Seq::empty()),
    {
        let labels: Vec<String> = Vec::new();
        assert(labels.deep_view() =~= Seq::empty());
        Desc::new(fq_name, help, labels)
    }

    /// The descriptor `fq_name` with one label.
    pub fn with_label(fq_name: &str, help: &str, label: &str) -> (r: Result<Desc, InvalidDesc>)
        ensures
            r is Ok <==> accepted(described(fq_name@, help@, seq![label@])),
            r is Ok ==> r->Ok_0.deep_view() == described(fq_name@, help@, seq![label@]),
    {
        let mut labels: Vec<String> = Vec::new();
        labels.push(label.to_owned());
        assert(labels.deep_view() =~= seq![label@]);
        Desc::new(fq_name, help, labels)
    }
}

/// The texts of `names`.
pub open spec fn texts(names: Seq<&str>) -> Seq<Seq<char>> {
    Seq::new(names.len(), |i: int| names[i]@)
}

impl Desc {
    /// The descriptor `fq_name` with the labels `labels`.
    pub fn with_labels(fq_name: &str, help: &str, labels: &[&str]) -> (r: Result<
        Desc,
        InvalidDesc,
    >)
        ensures
            r is Ok <==> accepted(described(fq_name@, help@, texts(labels@))),
            r is Ok ==> r->Ok_0.deep_view() == described(fq_name@, help@, texts(labels@)),
    {
        let mut names: Vec<String> = Vec::new();
        let mut i: usize = 0;
        while i < labels.len()
            invariant
                i <= labels.len(),
                names.len() == i,
                forall|j: int| 0 <= j < i ==> names@[j]@ == labels@[j]@,
            decreases labels.len() - i,
        {
            names.push(labels[i].to_owned());
            i += 1;
        }
        assert(names.deep_view() =~= texts(labels@));
        Desc::new(fq_name, help, names)
    }
}

/// The model of a descriptor with these parts.
pub open spec fn described(fq_name: Seq<char>, help: Seq<char>, variable_labels: Seq<Seq<char>>)
    -> DescModel {
    DescModel { fq_name, help, variable_labels }
}

pub fn copy_labels(labels: &Vec<LabelPair>) -> (out: Vec<LabelPair>)
    ensures
        out.deep_view() == labels.deep_view(),
{
    let mut out: Vec<LabelPair> = Vec::new();
    let mut i: usize = 0;
    while i < labels.len()
        invariant
            i <= labels.len(),
            out.len() == i,
            forall|j: int| 0 <= j < i ==> out@[j].deep_view() == labels@[j].deep_view(),
        decreases labels.len() - i,
    {
        out.push(labels[i].copy());
        i += 1;
    }
    assert(out.deep_view() =~= labels.deep_view());
    out
}

/// The label pairs with the names and values of `kv`, in order.
pub fn into_labels(kv: &[(&str, &str)]) -> (out: Vec<LabelPair>)
    ensures
        out.deep_view() == Seq::new(kv@.len(), |i: int| (kv@[i].0@, kv@[i].1@)),
{
    let mut out: Vec<LabelPair> = Vec::new();
    let mut i: usize = 0;
    while i < kv.len()
        invariant
            i <= kv.len(),
            out.len() == i,
            forall|j: int| 0 <= j < i ==> out@[j].deep_view() == (kv@[j].0@, kv@[j].1@),
        decreases kv.len() - i,
    {
        out.push(LabelPair::new(kv[i].0, kv[i].1));
        i += 1;
    }
    assert(out.deep_view() =~= Seq::new(kv@.len(), |i: int| (kv@[i].0@, kv@[i].1@)));
    out
}

fn family(desc: &Desc, field_type: MetricType, label_values: Vec<LabelPair>, value: Ratio) -> (mf:
    MetricFamily)
    ensures
        mf.deep_view() == single(desc.deep_view(), field_type, label_values.deep_view(), value),
{
    let mut metric: Vec<Metric> = Vec::new();
    metric.push(Metric { label: label_values, value });
    let mf = MetricFamily {
        name: desc.fq_name.clone(),
        help: desc.help.clone(),
        field_type,
        metric,
    };
    assert(mf.metric.deep_view() =~= seq![
        MetricModel { label: label_values.deep_view(), value },
    ]);
    mf
}

/// A gauge family of `desc` with one sample.
pub fn gauge(desc: &Desc, label_values: Vec<LabelPair>, value: Ratio) -> (mf: MetricFamily)
    ensures
        mf.deep_view() == single(
            desc.deep_view(),
            MetricType::Gauge,
            label_values.deep_view(),
            value,
        ),
{
    family(desc, MetricType::Gauge, label_values, value)
}

/// A counter family of `desc` with one sample.
pub fn counter(desc: &Desc, label_values: Vec<LabelPair>, value: Ratio) -> (mf: MetricFamily)
    ensures
        mf.deep_view() == single(
            desc.deep_view(),
            MetricType::Counter,
            label_values.deep_view(),
            value,
        ),
{
    family(desc, MetricType::Counter, label_values, value)
}

/// Adds a gauge sample for `val` when it is present, and nothing when it is absent.
pub fn maybe_gauge(
    families: &mut Vec<MetricFamily>,
    desc: &Desc,
    labels: &Vec<LabelPair>,
    val: Option<Ratio>,
)
    ensures
        final(families).deep_view() == old(families).deep_view() + maybe(
            desc.deep_view(),
            MetricType::Gauge,
            labels.deep_view(),
            val,
        ),
{
    let ghost before = families.deep_view();
    if let Some(v) = val {
        let mf = gauge(desc, copy_labels(labels), v);
        families.push(mf);
        assert(families.deep_view() =~= before + seq![mf.deep_view()]);
    } else {
        assert(families.deep_view() =~= before + Seq::empty());
    }
}

/// Adds a counter sample for `val` when it is present, and nothing when it is absent.
pub fn maybe_counter(
    families: &mut Vec<MetricFamily>,
    desc: &Desc,
    labels: &Vec<LabelPair>,
    val: Option<u64>,
)
    ensures
        final(families).deep_view() == old(families).deep_view() + maybe(
            desc.deep_view(),
            MetricType::Counter,
            labels.deep_view(),
            whole(val),
        ),
{
    let ghost before = families.deep_view();
    if let Some(v) = val {
        let mf = counter(desc, copy_labels(labels), Ratio::whole(v));
        families.push(mf);
        assert(families.deep_view() =~= before + seq![mf.deep_view()]);
    } else {
        assert(families.deep_view() =~= before + Seq::empty());
    }
}

/// One entity as the emitter sees it: its labels, and the value of the field in question if
/// the entity has one.
#[derive(Debug)]
pub struct Reading {
    pub label: Vec<LabelPair>,
    pub value: Option<Ratio>,
}

impl DeepView for Reading {
    type V = (Seq<(Seq<char>, Seq<char>)>, Option<Ratio>);

    open spec fn deep_view(&self) -> (Seq<(Seq<char>, Seq<char>)>, Option<Ratio>) {
        (self.label.deep_view(), self.value)
    }
}

/// The samples of the entities that have a value, in the entities' order, each with its
/// entity's labels.
pub open spec fn present(entities: Seq<(Seq<(Seq<char>, Seq<char>)>, Option<Ratio>)>) -> Seq<
    MetricModel,
>
    decreases entities.len(),
{
    if entities.len() == 0 {
        Seq::empty()
    } else {
        let rest = present(entities.drop_last());
        match entities.last().1 {
            Some(v) => rest.push(MetricModel { label: entities.last().0, value: v }),
            None => rest,
        }
    }
}

/// The family of `desc` over `entities`: one sample for each entity whose value is present,
/// none for an entity whose value is absent.
pub fn emit(desc: &Desc, field_type: MetricType, entities: &Vec<Reading>) -> (mf: MetricFamily)
    ensures
        mf.deep_view() == family_of(desc.deep_view(), field_type, present(entities.deep_view())),
{
    let mut metric: Vec<Metric> = Vec::new();
    let mut i: usize = 0;
    assert(metric.deep_view() =~= present(entities.deep_view().take(0)));
    while i < entities.len()
        invariant
            i <= entities.len(),
            metric.deep_view() == present(entities.deep_view().take(i as int)),
        decreases entities.len() - i,
    {
        let ghost all = entities.deep_view();
        let ghost before = metric.deep_view();
        assert(all.take(i + 1).drop_last() =~= all.take(i as int));
        assert(all.take(i + 1).last() == entities@[i as int].deep_view());
        if let Some(v) = entities[i].value {
            let m = Metric { label: copy_labels(&entities[i].label), value: v };
            metric.push(m);
            assert(metric.deep_view() =~= before.push(m.deep_view()));
        }
        i += 1;
    }
    assert(entities.deep_view().take(entities.len() as int) =~= entities.deep_view());
    MetricFamily { name: desc.fq_name.clone(), help: desc.help.clone(), field_type, metric }
}

/// An entity without a value gives no sample, and an entity with a value gives exactly one,
/// which carries the entity's labels.
pub proof fn lemma_one_entity_emits_at_most_one_sample(
    label: Seq<(Seq<char>, Seq<char>)>,
    value: Option<Ratio>,
)
    ensures
        value is None ==> present(seq![(label, value)]) == Seq::<MetricModel>::empty(),
        value is Some ==> present(seq![(label, value)]) == seq![
            MetricModel { label, value: value->Some_0 },
        ],
{
    let one = seq![(label, value)];
    assert(one.drop_last() =~= Seq::empty());
    assert(present(one.drop_last()) =~= Seq::empty());
    match value {
        Some(v) => {
            assert(present(one) =~= seq![MetricModel { label, value: v }]);
        },
        None => {},
    }
}

/// The samples of a list of entities are the samples of its parts, one after the other: what
/// an entity emits does not depend on the entities around it.
pub proof fn lemma_emission_is_per_entity(
    a: Seq<(Seq<(Seq<char>, Seq<char>)>, Option<Ratio>)>,
    b: Seq<(Seq<(Seq<char>, Seq<char>)>, Option<Ratio>)>,
)
    ensures
        present(a + b) == present(a) + present(b),
    decreases b.len(),
{
    if b.len() == 0 {
        assert(a + b =~= a);
        assert(present(a) + present(b) =~= present(a));
    } else {
        assert((a + b).drop_last() =~= a + b.drop_last());
        assert((a + b).last() == b.last());
        lemma_emission_is_per_entity(a, b.drop_last());
        match b.last().1 {
            Some(v) => {
                assert(present(a + b) =~= present(a) + present(b));
            },
            None => {},
        }
    }
}

} // verus!
