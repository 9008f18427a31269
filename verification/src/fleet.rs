//! Puts the fleet together from what the three services report.

use vstd::prelude::*;
use vstd::hash_map::StringHashMap;
use crate::alarm;
use crate::alarm::{AlarmInfo, AlarmInfoView};
use crate::instance::{Instance, InstanceView};
use crate::model;
use crate::text;

verus! {

/// How many instance ids one request for tags may name.
pub const IDS_PER_REQUEST: usize = 200;

/// What the management service reports of an instance.
pub struct InstanceInformation {
    pub instance_id: Option<String>,
    pub computer_name: Option<String>,
    pub name: Option<String>,
    pub ping_status: Option<String>,
    pub platform_type: Option<String>,
    pub platform_name: Option<String>,
    pub platform_version: Option<String>,
    pub ip_address: Option<String>,
    pub agent_version: Option<String>,
    pub last_ping_secs: Option<i64>,
}

/// A text that may be missing, as an empty text where it is.
pub open spec fn or_empty(s: Option<String>) -> Seq<char> {
    match s {
        Some(t) => t@,
        None => Seq::empty(),
    }
}

fn text_or_empty(s: Option<String>) -> (t: String)
    ensures
        t@ == or_empty(s),
{
    match s {
        Some(t) => t,
        None => String::new(),
    }
}

/// The platform from its name and its type; a part that is empty is left out.
pub open spec fn platform_text(name: Seq<char>, kind: Seq<char>) -> Seq<char> {
    if name.len() > 0 && kind.len() > 0 {
        name + " ("@ + kind + ")"@
    } else if name.len() > 0 {
        name
    } else {
        kind
    }
}

/// The platform from its name and its type.
pub fn platform_label(name: String, kind: String) -> (s: String)
    ensures
        s@ == platform_text(name@, kind@),
{
    if name.as_str().is_empty() {
        kind
    } else if kind.as_str().is_empty() {
        name
    } else {
        text::concat2(text::concat3(name.as_str(), " (", kind.as_str()).as_str(), ")")
    }
}

impl View for InstanceInformation {
    type V = InstanceView;

    /// The instance that the report is about, without alarms. It goes by its computer
    /// name, or by its registered name where it has none.
    open spec fn view(&self) -> InstanceView {
        InstanceView {
            id: or_empty(self.instance_id),
            name: if self.computer_name is Some {
                or_empty(self.computer_name)
            } else {
                or_empty(self.name)
            },
            status: or_empty(self.ping_status),
            platform: platform_text(or_empty(self.platform_name), or_empty(self.platform_type)),
            platform_version: or_empty(self.platform_version),
            ip_address: or_empty(self.ip_address),
            agent_version: or_empty(self.agent_version),
            last_ping_secs: self.last_ping_secs,
            alarms: Seq::empty(),
        }
    }
}

/// The instance that a report is about.
pub fn instance_from(info: InstanceInformation) -> (inst: Instance)
    ensures
        inst@ == info@,
{
    let name = match info.computer_name {
        Some(name) => name,
        None => text_or_empty(info.name),
    };
    let inst = Instance {
        id: text_or_empty(info.instance_id),
        name,
        status: text_or_empty(info.ping_status),
        platform: platform_label(
            text_or_empty(info.platform_name),
            text_or_empty(info.platform_type),
        ),
        platform_version: text_or_empty(info.platform_version),
        ip_address: text_or_empty(info.ip_address),
        agent_version: text_or_empty(info.agent_version),
        last_ping_secs: info.last_ping_secs,
        alarms: Vec::new(),
    };
    assert(inst@.alarms =~= Seq::<AlarmInfoView>::empty());
    inst
}

/// Adds the instances of a page of reports to the fleet.
pub fn add_page(fleet: &mut Vec<Instance>, page: Vec<InstanceInformation>)
    ensures
        model::views(final(fleet)@) == model::views(old(fleet)@) + model::views(page@),
{
    let ghost before = model::views(fleet@);
    let ghost all = model::views(page@);
    assert(model::views(fleet@) =~= before + all.take(0));
    for info in it: page
        invariant
            it.seq() == page@,
            all == model::views(page@),
            model::views(fleet@) == before + all.take(it.index() as int),
    {
        let ghost n = it.index() as int;
        let inst = instance_from(info);
        proof {
            model::lemma_views_push(fleet@, inst);
            assert(before + all.take(n + 1) =~= (before + all.take(n)).push(all[n]));
        }
        fleet.push(inst);
    }
    assert(all.take(all.len() as int) =~= all);
}

/// A key and a value, each of which may be missing: a tag of an instance or a dimension
/// of an alarm.
pub struct Label {
    pub key: Option<String>,
    pub value: Option<String>,
}

/// What a `Label` says.
pub struct LabelView {
    pub key: Option<Seq<char>>,
    pub value: Option<Seq<char>>,
}

impl View for Label {
    type V = LabelView;

    open spec fn view(&self) -> LabelView {
        LabelView { key: text::text_opt(self.key), value: text::text_opt(self.value) }
    }
}

/// The value of the first label with the key `key`, if there is such a label and it has
/// a value.
pub open spec fn value_of(labels: Seq<LabelView>, key: Seq<char>) -> Option<Seq<char>>
    decreases labels.len(),
{
    if labels.len() == 0 {
        None
    } else if labels[0].key == Some(key) {
        labels[0].value
    } else {
        value_of(labels.drop_first(), key)
    }
}

fn label_value<'a>(labels: &'a Vec<Label>, key: &str) -> (value: Option<&'a String>)
    ensures
        value_of(model::views(labels@), key@) == (match value {
            Some(v) => Some(v@),
            None => None,
        }),
{
    let ghost all = model::views(labels@);
    let mut i: usize = 0;
    assert(all.skip(0) =~= all);
    while i < labels.len()
        invariant
            i <= labels@.len(),
            all == model::views(labels@),
            value_of(all.skip(i as int), key@) == value_of(all, key@),
        decreases labels@.len() - i,
    {
        let label = &labels[i];
        assert(all.skip(i as int)[0] == label@);
        assert(all.skip(i as int).drop_first() =~= all.skip(i + 1));
        match &label.key {
            Some(k) => {
                if text::text_eq(k.as_str(), key) {
                    return label.value.as_ref();
                }
            },
            None => {},
        }
        i = i + 1;
    }
    None
}

/// What the compute service reports of an instance.
pub struct TaggedInstance {
    pub instance_id: Option<String>,
    pub tags: Vec<Label>,
}

/// What a `TaggedInstance` says.
pub struct TaggedInstanceView {
    pub instance_id: Option<Seq<char>>,
    pub tags: Seq<LabelView>,
}

impl View for TaggedInstance {
    type V = TaggedInstanceView;

    open spec fn view(&self) -> TaggedInstanceView {
        TaggedInstanceView {
            instance_id: text::text_opt(self.instance_id),
            tags: model::views(self.tags@),
        }
    }
}

impl TaggedInstanceView {
    /// The value of the tag `Name`; empty without one.
    pub open spec fn given_name(self) -> Seq<char> {
        match value_of(self.tags, "Name"@) {
            Some(name) => name,
            None => Seq::empty(),
        }
    }
}

/// The known names after a report: an instance that has an id and a name that is not
/// empty is known by that name from then on.
pub open spec fn named_by(
    known: Map<Seq<char>, Seq<char>>,
    inst: TaggedInstanceView,
) -> Map<Seq<char>, Seq<char>> {
    if inst.instance_id is Some && inst.given_name().len() > 0 {
        known.insert(inst.instance_id->0, inst.given_name())
    } else {
        known
    }
}

/// The known names after a list of reports.
pub open spec fn named_by_all(
    known: Map<Seq<char>, Seq<char>>,
    list: Seq<TaggedInstanceView>,
) -> Map<Seq<char>, Seq<char>>
    decreases list.len(),
{
    if list.len() == 0 {
        known
    } else {
        named_by(named_by_all(known, list.drop_last()), list.last())
    }
}

/// The names that instances are tagged with, by instance id.
pub struct NameIndex {
    names: StringHashMap<String>,
}

impl View for NameIndex {
    type V = Map<Seq<char>, Seq<char>>;

    closed spec fn view(&self) -> Map<Seq<char>, Seq<char>> {
        self.names@.map_values(|name: String| name@)
    }
}

impl NameIndex {
    /// No names.
    pub fn new() -> (index: NameIndex)
        ensures
            index@ == Map::<Seq<char>, Seq<char>>::empty(),
    {
        let index = NameIndex { names: StringHashMap::new() };
        assert(index@ =~= Map::<Seq<char>, Seq<char>>::empty());
        index
    }

    /// Adds the names of a page of reports.
    pub fn add_page(&mut self, page: &Vec<TaggedInstance>)
        ensures
            final(self)@ == named_by_all(old(self)@, model::views(page@)),
    {
        let ghost before = self@;
        let ghost all = model::views(page@);
        let mut i: usize = 0;
        assert(all.take(0) =~= Seq::<TaggedInstanceView>::empty());
        while i < page.len()
            invariant
                i <= page@.len(),
                all == model::views(page@),
                self@ == named_by_all(before, all.take(i as int)),
            decreases page@.len() - i,
        {
            let inst = &page[i];
            proof {
                assert(all.take(i + 1).drop_last() =~= all.take(i as int));
                assert(all.take(i + 1).last() == inst@);
            }
            match &inst.instance_id {
                Some(id) => {
                    let name = match label_value(&inst.tags, "Name") {
                        Some(name) => name.clone(),
                        None => String::new(),
                    };
                    if !name.as_str().is_empty() {
                        let ghost known = self@;
                        let ghost id_text = id@;
                        let ghost name_text = name@;
                        self.names.insert(id.clone(), name);
                        assert(self@ =~= known.insert(id_text, name_text));
                    }
                },
                None => {},
            }
            i = i + 1;
        }
        assert(all.take(i as int) =~= all);
    }

    /// The name of the instance with the id `id`.
    pub fn get(&self, id: &str) -> (name: Option<&String>)
        ensures
            match name {
                Some(n) => self@.contains_key(id@) && n@ == self@[id@],
                None => !self@.contains_key(id@),
            },
    {
        self.names.get(id)
    }
}

/// What the alarm service reports of an alarm.
pub struct MetricAlarm {
    pub alarm_name: Option<String>,
    pub state_value: Option<String>,
    pub state_reason: Option<String>,
    pub dimensions: Vec<Label>,
}

/// What a `MetricAlarm` says.
pub struct MetricAlarmView {
    pub info: AlarmInfoView,
    pub dimensions: Seq<LabelView>,
}

impl View for MetricAlarm {
    type V = MetricAlarmView;

    open spec fn view(&self) -> MetricAlarmView {
        MetricAlarmView {
            info: AlarmInfoView {
                name: or_empty(self.alarm_name),
                state: or_empty(self.state_value),
                reason: text::text_opt(self.state_reason),
            },
            dimensions: model::views(self.dimensions@),
        }
    }
}

/// The alarms that are attached to the instance `id`.
pub open spec fn alarms_at(
    known: Map<Seq<char>, Seq<AlarmInfoView>>,
    id: Seq<char>,
) -> Seq<AlarmInfoView> {
    if known.contains_key(id) {
        known[id]
    } else {
        Seq::empty()
    }
}

/// The attached alarms after a report: an alarm on an instance comes behind the alarms
/// that are attached to it already.
pub open spec fn attached_by(
    known: Map<Seq<char>, Seq<AlarmInfoView>>,
    alarm: MetricAlarmView,
) -> Map<Seq<char>, Seq<AlarmInfoView>> {
    match value_of(alarm.dimensions, "InstanceId"@) {
        Some(id) => known.insert(id, alarms_at(known, id).push(alarm.info)),
        None => known,
    }
}

/// The attached alarms after a list of reports.
pub open spec fn attached_by_all(
    known: Map<Seq<char>, Seq<AlarmInfoView>>,
    list: Seq<MetricAlarmView>,
) -> Map<Seq<char>, Seq<AlarmInfoView>>
    decreases list.len(),
{
    if list.len() == 0 {
        known
    } else {
        attached_by(attached_by_all(known, list.drop_last()), list.last())
    }
}

/// The alarms that are attached to instances, by instance id.
pub struct AlarmIndex {
    alarms: StringHashMap<Vec<AlarmInfo>>,
}

impl View for AlarmIndex {
    type V = Map<Seq<char>, Seq<AlarmInfoView>>;

    closed spec fn view(&self) -> Map<Seq<char>, Seq<AlarmInfoView>> {
        self.alarms@.map_values(|list: Vec<AlarmInfo>| model::views(list@))
    }
}

impl AlarmIndex {
    /// No alarms.
    pub fn new() -> (index: AlarmIndex)
        ensures
            index@ == Map::<Seq<char>, Seq<AlarmInfoView>>::empty(),
    {
        let index = AlarmIndex { alarms: StringHashMap::new() };
        assert(index@ =~= Map::<Seq<char>, Seq<AlarmInfoView>>::empty());
        index
    }

    /// A copy of the alarms that are attached to the instance `id`; empty without any.
    fn list_at(&self, id: &str) -> (list: Vec<AlarmInfo>)
        ensures
            model::views(list@) == alarms_at(self@, id@),
    {
        match self.alarms.get(id) {
            Some(list) => alarm::clone_alarms(list),
            None => {
                let list: Vec<AlarmInfo> = Vec::new();
                assert(model::views(list@) =~= Seq::<AlarmInfoView>::empty());
                list
            },
        }
    }

    /// Adds the alarms of a page of reports.
    pub fn add_page(&mut self, page: Vec<MetricAlarm>)
        ensures
            final(self)@ == attached_by_all(old(self)@, model::views(page@)),
    {
        let ghost before = self@;
        let ghost all = model::views(page@);
        assert(all.take(0) =~= Seq::<MetricAlarmView>::empty());
        for report in it: page
            invariant
                it.seq() == page@,
                all == model::views(page@),
                self@ == attached_by_all(before, all.take(it.index() as int)),
        {
            let ghost n = it.index() as int;
            proof {
                assert(all.take(n + 1).drop_last() =~= all.take(n));
                assert(all.take(n + 1).last() == report@);
            }
            let id = match label_value(&report.dimensions, "InstanceId") {
                Some(id) => Some(id.clone()),
                None => None,
            };
            match id {
                Some(id) => {
                    let mut list = self.list_at(id.as_str());
                    let info = AlarmInfo {
                        name: text_or_empty(report.alarm_name),
                        state: text_or_empty(report.state_value),
                        reason: report.state_reason,
                    };
                    let ghost known = self@;
                    let ghost id_text = id@;
                    proof {
                        model::lemma_views_push(list@, info);
                    }
                    list.push(info);
                    let ghost list_view = model::views(list@);
                    self.alarms.insert(id, list);
                    assert(self@ =~= known.insert(id_text, list_view));
                },
                None => {},
            }
        }
        assert(all.take(all.len() as int) =~= all);
    }

    /// The alarms that are attached to the instance `id`, if any are.
    pub fn get(&self, id: &str) -> (list: Option<&Vec<AlarmInfo>>)
        ensures
            match list {
                Some(l) => self@.contains_key(id@) && model::views(l@) == self@[id@],
                None => !self@.contains_key(id@),
            },
    {
        self.alarms.get(id)
    }
}

/// The ids of the instances that the compute service knows.
pub open spec fn compute_ids(fleet: Seq<InstanceView>) -> Seq<Seq<char>> {
    fleet.filter(|i: InstanceView| text::has_prefix(i.id, "i-"@)).map_values(
        |i: InstanceView| i.id,
    )
}

/// The ids of the instances that the compute service knows.
pub fn ec2_ids(fleet: &Vec<Instance>) -> (ids: Vec<String>)
    ensures
        text::texts(ids@) == compute_ids(model::views(fleet@)),
{
    let ghost all = model::views(fleet@);
    let mut ids: Vec<String> = Vec::new();
    let mut n: usize = 0;
    proof {
        reveal(Seq::filter);
        assert(text::texts(ids@) =~= compute_ids(all.take(0)));
    }
    while n < fleet.len()
        invariant
            n <= fleet@.len(),
            all == model::views(fleet@),
            text::texts(ids@) == compute_ids(all.take(n as int)),
        decreases fleet@.len() - n,
    {
        let ghost before = ids@;
        let inst = &fleet[n];
        proof {
            reveal(Seq::filter);
            assert(all.take(n + 1).drop_last() =~= all.take(n as int));
            assert(all.take(n + 1).last() == inst@);
        }
        if text::starts_with(inst.id.as_str(), "i-") {
            ids.push(inst.id.clone());
            assert(text::texts(ids@) =~= text::texts(before).push(inst@.id));
            assert(compute_ids(all.take(n + 1)) =~= compute_ids(all.take(n as int)).push(
                inst@.id,
            ));
        }
        n = n + 1;
    }
    assert(all.take(n as int) =~= all);
    ids
}

/// The ids in lists of `IDS_PER_REQUEST`; only the last list may be shorter.
pub open spec fn chunked(ids: Seq<Seq<char>>) -> Seq<Seq<Seq<char>>>
    decreases ids.len(),
{
    if ids.len() == 0 {
        seq![]
    } else if ids.len() <= IDS_PER_REQUEST {
        seq![ids]
    } else {
        seq![ids.take(IDS_PER_REQUEST as int)] + chunked(ids.skip(IDS_PER_REQUEST as int))
    }
}

/// The texts of lists of lists.
pub open spec fn all_texts(lists: Seq<Vec<String>>) -> Seq<Seq<Seq<char>>> {
    lists.map_values(|list: Vec<String>| text::texts(list@))
}

/// The ids in lists that are short enough for one request each.
pub fn id_chunks(ids: &Vec<String>) -> (lists: Vec<Vec<String>>)
    ensures
        all_texts(lists@) == chunked(text::texts(ids@)),
{
    let ghost all = text::texts(ids@);
    let mut lists: Vec<Vec<String>> = Vec::new();
    let mut n: usize = 0;
    proof {
        assert(all.skip(0) =~= all);
        assert(all_texts(lists@) + chunked(all) =~= chunked(all));
    }
    while n < ids.len()
        invariant
            n <= ids@.len(),
            all == text::texts(ids@),
            all_texts(lists@) + chunked(all.skip(n as int)) == chunked(all),
        decreases ids@.len() - n,
    {
        let ghost before = lists@;
        let ghost rest = all.skip(n as int);
        let left: usize = ids.len() - n;
        let size: usize = if left < IDS_PER_REQUEST {
            left
        } else {
            IDS_PER_REQUEST
        };
        let mut list: Vec<String> = Vec::new();
        let mut k: usize = 0;
        while k < size
            invariant
                k <= size,
                n + size <= ids@.len(),
                ids@.len() <= usize::MAX,
                list@ == ids@.subrange(n as int, n + k),
            decreases size - k,
        {
            list.push(ids[n + k].clone());
            k = k + 1;
        }
        proof {
            assert(text::texts(list@) =~= rest.take(size as int));
            assert(rest.skip(size as int) =~= all.skip(n + size));
            if left <= IDS_PER_REQUEST {
                assert(rest.take(size as int) =~= rest);
                assert(chunked(rest) =~= seq![rest] + chunked(all.skip(n + size)));
            }
        }
        let ghost list_texts = text::texts(list@);
        lists.push(list);
        proof {
            assert(all_texts(lists@) =~= all_texts(before).push(list_texts));
            assert(all_texts(before) + (seq![list_texts] + chunked(all.skip(n + size)))
                =~= all_texts(lists@) + chunked(all.skip(n + size)));
        }
        n = n + size;
    }
    assert(all.skip(n as int) =~= Seq::<Seq<char>>::empty());
    assert(all_texts(lists@) + chunked(all.skip(n as int)) =~= all_texts(lists@));
    lists
}

/// An instance with the name that it is tagged with and the alarms that are attached to
/// it, where there are any.
pub open spec fn completed(
    inst: InstanceView,
    names: Map<Seq<char>, Seq<char>>,
    alarms: Map<Seq<char>, Seq<AlarmInfoView>>,
) -> InstanceView {
    InstanceView {
        name: if names.contains_key(inst.id) {
            names[inst.id]
        } else {
            inst.name
        },
        alarms: if alarms.contains_key(inst.id) {
            alarms[inst.id]
        } else {
            inst.alarms
        },
        ..inst
    }
}

/// The fleet with names and alarms.
pub open spec fn all_completed(
    fleet: Seq<InstanceView>,
    names: Map<Seq<char>, Seq<char>>,
    alarms: Map<Seq<char>, Seq<AlarmInfoView>>,
) -> Seq<InstanceView> {
    fleet.map_values(|inst: InstanceView| completed(inst, names, alarms))
}

/// What is known of alarms; nothing where they could not be loaded.
pub open spec fn known_alarms(
    alarms: Option<AlarmIndex>,
) -> Map<Seq<char>, Seq<AlarmInfoView>> {
    match alarms {
        Some(index) => index@,
        None => Map::empty(),
    }
}

/// Puts names and alarms to the instances. Without `alarms`, because they could not be
/// loaded, the fleet has none.
pub fn fetch_instances(
    fleet: Vec<Instance>,
    names: &NameIndex,
    alarms: Option<AlarmIndex>,
) -> (complete: Vec<Instance>)
    ensures
        model::views(complete@) == all_completed(
            model::views(fleet@),
            names@,
            known_alarms(alarms),
        ),
{
    let index = match alarms {
        Some(index) => index,
        None => AlarmIndex::new(),
    };
    let ghost all = model::views(fleet@);
    let ghost done = all_completed(all, names@, index@);
    let mut complete: Vec<Instance> = Vec::new();
    assert(model::views(complete@) =~= done.take(0));
    for inst in it: fleet
        invariant
            it.seq() == fleet@,
            all == model::views(fleet@),
            done == all_completed(all, names@, index@),
            model::views(complete@) == done.take(it.index() as int),
    {
        let ghost n = it.index() as int;
        let ghost old_view = inst@;
        let mut inst = inst;
        let name = match names.get(inst.id.as_str()) {
            Some(name) => Some(name.clone()),
            None => None,
        };
        let list = match index.get(inst.id.as_str()) {
            Some(list) => Some(alarm::clone_alarms(list)),
            None => None,
        };
        match name {
            Some(name) => {
                inst.name = name;
            },
            None => {},
        }
        match list {
            Some(list) => {
                inst.alarms = list;
            },
            None => {},
        }
        proof {
            assert(inst@ =~= completed(old_view, names@, index@));
            model::lemma_views_push(complete@, inst);
            assert(done.take(n + 1) =~= done.take(n).push(done[n]));
        }
        complete.push(inst);
    }
    assert(done.take(done.len() as int) =~= done);
    complete
}

/// The region to show; a profile without one is in an unknown region.
pub fn region_label(region: Option<String>) -> (s: String)
    ensures
        s@ == (match region {
            Some(r) => r@,
            None => "unknown"@,
        }),
{
    match region {
        Some(region) => region,
        None => "unknown".to_owned(),
    }
}

/// The ids of lists of ids, one list after the other.
pub open spec fn all_ids(lists: Seq<Seq<Seq<char>>>) -> Seq<Seq<char>>
    decreases lists.len(),
{
    if lists.len() == 0 {
        seq![]
    } else {
        lists[0] + all_ids(lists.drop_first())
    }
}

/// The requests ask for every id once and in order, none asks for nothing and none for
/// more than fit.
pub proof fn law_requests_cover_ids(ids: Seq<Seq<char>>)
    ensures
        all_ids(chunked(ids)) == ids,
        forall|i: int|
            0 <= i < chunked(ids).len() ==> 0 < (#[trigger] chunked(ids)[i]).len()
                <= IDS_PER_REQUEST,
    decreases ids.len(),
{
    if ids.len() == 0 {
    } else if ids.len() <= IDS_PER_REQUEST {
        let lists = chunked(ids);
        assert(lists.drop_first() =~= seq![]);
        assert(all_ids(lists.drop_first()) =~= seq![]);
        assert(lists[0] + all_ids(lists.drop_first()) =~= ids);
    } else {
        let first = ids.take(IDS_PER_REQUEST as int);
        let rest = ids.skip(IDS_PER_REQUEST as int);
        law_requests_cover_ids(rest);
        let lists = chunked(ids);
        assert(lists.drop_first() =~= chunked(rest));
        assert(first + rest =~= ids);
        assert forall|i: int| 0 <= i < lists.len() implies 0 < (#[trigger] lists[i]).len()
            <= IDS_PER_REQUEST by {
            if i > 0 {
                assert(lists[i] == chunked(rest)[i - 1]);
            }
        }
    }
}

/// Names and alarms change nothing else: every instance keeps its place, its id and what
/// it reported.
pub proof fn law_completion_keeps_fleet(
    fleet: Seq<InstanceView>,
    names: Map<Seq<char>, Seq<char>>,
    alarms: Map<Seq<char>, Seq<AlarmInfoView>>,
)
    ensures
        all_completed(fleet, names, alarms).len() == fleet.len(),
        forall|i: int|
            0 <= i < fleet.len() ==> {
                let before = fleet[i];
                let after = #[trigger] all_completed(fleet, names, alarms)[i];
                after == (InstanceView { name: after.name, alarms: after.alarms, ..before })
            },
        forall|i: int|
            0 <= i < fleet.len() && names.contains_key(fleet[i].id) ==> (
            #[trigger] all_completed(fleet, names, alarms)[i]).name == names[fleet[i].id],
        forall|i: int|
            0 <= i < fleet.len() && alarms.contains_key(fleet[i].id) ==> (
            #[trigger] all_completed(fleet, names, alarms)[i]).alarms == alarms[fleet[i].id],
{
}

/// An alarm is attached to the instance that its dimensions name, behind the alarms that
/// are attached to it already, and to no other.
pub proof fn law_alarm_is_attached(
    known: Map<Seq<char>, Seq<AlarmInfoView>>,
    alarm: MetricAlarmView,
    id: Seq<char>,
)
    ensures
        value_of(alarm.dimensions, "InstanceId"@) == Some(id) ==> alarms_at(
            attached_by(known, alarm),
            id,
        ) == alarms_at(known, id).push(alarm.info),
        value_of(alarm.dimensions, "InstanceId"@) != Some(id) ==> alarms_at(
            attached_by(known, alarm),
            id,
        ) == alarms_at(known, id),
{
}

/// It does not matter how the reports on tags are cut into pages.
pub proof fn law_name_pages_add_up(
    known: Map<Seq<char>, Seq<char>>,
    a: Seq<TaggedInstanceView>,
    b: Seq<TaggedInstanceView>,
)
    ensures
        named_by_all(named_by_all(known, a), b) == named_by_all(known, a + b),
    decreases b.len(),
{
    if b.len() == 0 {
        assert(a + b =~= a);
    } else {
        law_name_pages_add_up(known, a, b.drop_last());
        assert((a + b).drop_last() =~= a + b.drop_last());
        assert((a + b).last() == b.last());
    }
}

/// It does not matter how the reports on alarms are cut into pages.
pub proof fn law_alarm_pages_add_up(
    known: Map<Seq<char>, Seq<AlarmInfoView>>,
    a: Seq<MetricAlarmView>,
    b: Seq<MetricAlarmView>,
)
    ensures
        attached_by_all(attached_by_all(known, a), b) == attached_by_all(known, a + b),
    decreases b.len(),
{
    if b.len() == 0 {
        assert(a + b =~= a);
    } else {
        law_alarm_pages_add_up(known, a, b.drop_last());
        assert((a + b).drop_last() =~= a + b.drop_last());
        assert((a + b).last() == b.last());
    }
}

} // verus!
