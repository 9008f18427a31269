//! What holds of the fleet as it is put together, and of stored bookmarks and profiles.

use vstd::prelude::*;
use crate::alarm::AlarmInfoView;
use crate::favorites;
use crate::fleet;
use crate::fleet::{
    InstanceInformation, LabelView, MetricAlarmView, TaggedInstanceView,
};
use crate::instance::InstanceView;
use crate::loading::{LoadEventView, LoadView};
use crate::profiles;
use crate::profiles::ProfileFiles;
use crate::text;
use crate::text_laws;

verus! {

/// A label is found by its key wherever it stands and however many there are: the value is
/// that of the first label with the key, and there is none without such a label.
pub proof fn law_label_lookup(labels: Seq<LabelView>, key: Seq<char>, k: int)
    ensures
        0 <= k < labels.len() && labels[k].key == Some(key) && (forall|j: int|
            0 <= j < k ==> (#[trigger] labels[j]).key != Some(key)) ==> fleet::value_of(
            labels,
            key,
        ) == labels[k].value,
        (forall|j: int| 0 <= j < labels.len() ==> (#[trigger] labels[j]).key != Some(key))
            ==> fleet::value_of(labels, key) is None,
    decreases labels.len(),
{
    if labels.len() > 0 {
        let tail = labels.drop_first();
        law_label_lookup(tail, key, k - 1);
        assert forall|j: int| 0 <= j < tail.len() implies #[trigger] tail[j] == labels[j + 1] by {}
        if 0 < k < labels.len() && labels[k].key == Some(key) && (forall|j: int|
            0 <= j < k ==> (#[trigger] labels[j]).key != Some(key)) {
            assert(labels[0].key != Some(key));
            assert forall|j: int| 0 <= j < k - 1 implies (#[trigger] tail[j]).key != Some(key) by {
                assert(labels[j + 1].key != Some(key));
            }
        }
        if forall|j: int| 0 <= j < labels.len() ==> (#[trigger] labels[j]).key != Some(key) {
            assert(labels[0].key != Some(key));
            assert forall|j: int| 0 <= j < tail.len() implies (#[trigger] tail[j]).key != Some(
                key,
            ) by {
                assert(labels[j + 1].key != Some(key));
            }
        }
    }
}

/// An instance goes by the value of its first tag `Name`, wherever the tag stands, if that
/// is not empty; nothing else becomes known by a report.
pub proof fn law_name_tag(
    known: Map<Seq<char>, Seq<char>>,
    inst: TaggedInstanceView,
    id: Seq<char>,
    name: Seq<char>,
    k: int,
)
    requires
        inst.instance_id == Some(id),
        0 <= k < inst.tags.len(),
        inst.tags[k].key == Some("Name"@),
        forall|j: int| 0 <= j < k ==> (#[trigger] inst.tags[j]).key != Some("Name"@),
    ensures
        inst.tags[k].value == Some(name) && name.len() > 0 ==> fleet::named_by(known, inst)
            == known.insert(id, name),
        inst.tags[k].value == Some(name) && name.len() == 0 ==> fleet::named_by(known, inst)
            == known,
        inst.tags[k].value is None ==> fleet::named_by(known, inst) == known,
{
    law_label_lookup(inst.tags, "Name"@, k);
}

/// A report without an id or without a tag `Name` makes nothing known.
pub proof fn law_no_name_tag(known: Map<Seq<char>, Seq<char>>, inst: TaggedInstanceView)
    ensures
        inst.instance_id is None ==> fleet::named_by(known, inst) == known,
        (forall|j: int| 0 <= j < inst.tags.len() ==> (#[trigger] inst.tags[j]).key != Some("Name"@))
            ==> fleet::named_by(known, inst) == known,
{
    law_label_lookup(inst.tags, "Name"@, 0);
}

/// Reports are taken one by one; a later one on the same instance counts.
pub proof fn law_name_reports(
    known: Map<Seq<char>, Seq<char>>,
    list: Seq<TaggedInstanceView>,
    inst: TaggedInstanceView,
)
    ensures
        fleet::named_by_all(known, Seq::empty()) == known,
        fleet::named_by_all(known, list.push(inst)) == fleet::named_by(
            fleet::named_by_all(known, list),
            inst,
        ),
{
    assert(list.push(inst).drop_last() =~= list);
}

/// An alarm is attached to the instance that its first dimension `InstanceId` names,
/// wherever the dimension stands, behind the alarms that are attached to it already, and
/// to no other instance.
pub proof fn law_alarm_dimension(
    known: Map<Seq<char>, Seq<AlarmInfoView>>,
    alarm: MetricAlarmView,
    id: Seq<char>,
    k: int,
)
    requires
        0 <= k < alarm.dimensions.len(),
        alarm.dimensions[k].key == Some("InstanceId"@),
        forall|j: int|
            0 <= j < k ==> (#[trigger] alarm.dimensions[j]).key != Some("InstanceId"@),
    ensures
        alarm.dimensions[k].value == Some(id) && known.contains_key(id) ==> fleet::attached_by(
            known,
            alarm,
        ) == known.insert(id, known[id].push(alarm.info)),
        alarm.dimensions[k].value == Some(id) && !known.contains_key(id) ==> fleet::attached_by(
            known,
            alarm,
        ) == known.insert(id, seq![alarm.info]),
        alarm.dimensions[k].value is None ==> fleet::attached_by(known, alarm) == known,
{
    law_label_lookup(alarm.dimensions, "InstanceId"@, k);
    assert(Seq::<AlarmInfoView>::empty().push(alarm.info) =~= seq![alarm.info]);
}

/// An alarm whose dimensions name no instance is attached to none.
pub proof fn law_alarm_without_dimension(
    known: Map<Seq<char>, Seq<AlarmInfoView>>,
    alarm: MetricAlarmView,
)
    requires
        forall|j: int|
            0 <= j < alarm.dimensions.len() ==> (#[trigger] alarm.dimensions[j]).key != Some(
                "InstanceId"@,
            ),
    ensures
        fleet::attached_by(known, alarm) == known,
{
    law_label_lookup(alarm.dimensions, "InstanceId"@, 0);
}

/// Reports on alarms are taken one by one, in their order.
pub proof fn law_alarm_reports(
    known: Map<Seq<char>, Seq<AlarmInfoView>>,
    list: Seq<MetricAlarmView>,
    alarm: MetricAlarmView,
)
    ensures
        fleet::attached_by_all(known, Seq::empty()) == known,
        fleet::attached_by_all(known, list.push(alarm)) == fleet::attached_by(
            fleet::attached_by_all(known, list),
            alarm,
        ),
{
    assert(list.push(alarm).drop_last() =~= list);
}

/// The platform is told by its name with its type in brackets, or by the one of them that
/// is there.
pub proof fn law_platform(name: Seq<char>, kind: Seq<char>)
    ensures
        name.len() > 0 && kind.len() > 0 ==> fleet::platform_text(name, kind) == name + " ("@
            + kind + ")"@,
        kind.len() == 0 ==> fleet::platform_text(name, kind) == name,
        name.len() == 0 ==> fleet::platform_text(name, kind) == kind,
{
    if name.len() == 0 && kind.len() == 0 {
        assert(name =~= kind);
    }
}

/// An instance is what its report says, field by field; what is missing is empty. It goes
/// by its computer name, and by its registered name only without one.
pub proof fn law_report(info: InstanceInformation)
    ensures
        info@.id == (match info.instance_id {
            Some(s) => s@,
            None => Seq::empty(),
        }),
        info.computer_name matches Some(s) ==> info@.name == s@,
        info.computer_name is None && info.name is Some ==> info@.name == info.name->0@,
        info.computer_name is None && info.name is None ==> info@.name.len() == 0,
        info@.status == (match info.ping_status {
            Some(s) => s@,
            None => Seq::empty(),
        }),
        info@.platform_version == (match info.platform_version {
            Some(s) => s@,
            None => Seq::empty(),
        }),
        info@.ip_address == (match info.ip_address {
            Some(s) => s@,
            None => Seq::empty(),
        }),
        info@.agent_version == (match info.agent_version {
            Some(s) => s@,
            None => Seq::empty(),
        }),
        info@.last_ping_secs == info.last_ping_secs,
        info@.alarms.len() == 0,
        info.platform_name is None && info.platform_type is None ==> info@.platform.len() == 0,
        info.platform_name is Some && info.platform_type is None ==> info@.platform
            == info.platform_name->0@,
        info.platform_name is None && info.platform_type is Some ==> info@.platform
            == info.platform_type->0@,
        info.platform_name is Some && info.platform_type is Some ==> info@.platform
            == fleet::platform_text(info.platform_name->0@, info.platform_type->0@),
{
}

/// Tags are asked for of exactly the instances whose id begins with `i-`, in their order.
pub proof fn law_compute_ids(list: Seq<InstanceView>, i: InstanceView)
    ensures
        fleet::compute_ids(Seq::empty()) == Seq::<Seq<char>>::empty(),
        i.id.len() >= 2 && i.id[0] == 'i' && i.id[1] == '-' ==> fleet::compute_ids(list.push(i))
            == fleet::compute_ids(list).push(i.id),
        !(i.id.len() >= 2 && i.id[0] == 'i' && i.id[1] == '-') ==> fleet::compute_ids(list.push(i))
            == fleet::compute_ids(list),
{
    reveal(Seq::filter);
    reveal_strlit("i-");
    assert("i-"@ =~= seq!['i', '-']);
    assert(list.push(i).drop_last() =~= list);
    assert(fleet::compute_ids(Seq::<InstanceView>::empty()) =~= Seq::<Seq<char>>::empty());
    if i.id.len() >= 2 && i.id[0] == 'i' && i.id[1] == '-' {
        assert(i.id.take(2) =~= seq!['i', '-']);
        assert(text::has_prefix(i.id, "i-"@));
        assert(fleet::compute_ids(list.push(i)) =~= fleet::compute_ids(list).push(i.id));
    } else {
        if text::has_prefix(i.id, "i-"@) {
            assert(i.id.take(2)[0] == 'i' && i.id.take(2)[1] == '-');
        }
        assert(fleet::compute_ids(list.push(i)) =~= fleet::compute_ids(list));
    }
}

/// A request asks for two hundred ids, the last one for what is left: the id at position
/// `j` of request `i` is the one at position `200 * i + j` of all.
pub proof fn law_request_sizes(ids: Seq<Seq<char>>, i: int, j: int)
    requires
        0 <= i < fleet::chunked(ids).len(),
        0 <= j < fleet::chunked(ids)[i].len(),
    ensures
        i + 1 < fleet::chunked(ids).len() ==> fleet::chunked(ids)[i].len() == 200,
        fleet::chunked(ids)[i].len() <= 200,
        200 * i + j < ids.len(),
        fleet::chunked(ids)[i][j] == ids[200 * i + j],
    decreases ids.len(),
{
    let lists = fleet::chunked(ids);
    if ids.len() > 200 {
        let rest = ids.skip(200);
        assert(lists[0] == ids.take(200));
        if i > 0 {
            assert(lists[i] == fleet::chunked(rest)[i - 1]);
            law_request_sizes(rest, i - 1, j);
        }
    }
}

/// There are as many requests as are needed, and none without an id.
pub proof fn law_request_count(ids: Seq<Seq<char>>, n: nat)
    requires
        200 * n < ids.len() + 200 <= 200 * (n + 1),
    ensures
        fleet::chunked(ids).len() == n,
    decreases ids.len(),
{
    if ids.len() > 200 {
        law_request_count(ids.skip(200), (n - 1) as nat);
    }
}

/// Names and alarms are put to the instances that they belong to; an instance that has
/// none keeps what it reported.
pub proof fn law_completion(
    list: Seq<InstanceView>,
    names: Map<Seq<char>, Seq<char>>,
    alarms: Map<Seq<char>, Seq<AlarmInfoView>>,
    i: int,
)
    requires
        0 <= i < list.len(),
    ensures
        fleet::all_completed(list, names, alarms).len() == list.len(),
        ({
            let before = list[i];
            let after = fleet::all_completed(list, names, alarms)[i];
            &&& after == (InstanceView { name: after.name, alarms: after.alarms, ..before })
            &&& names.contains_key(before.id) ==> after.name == names[before.id]
            &&& !names.contains_key(before.id) ==> after.name == before.name
            &&& alarms.contains_key(before.id) ==> after.alarms == alarms[before.id]
            &&& !alarms.contains_key(before.id) ==> after.alarms == before.alarms
        }),
{
}

/// The loading, step by step: the instances, then the names of one request after the
/// other, then the alarms.
pub proof fn law_loading_steps(
    list: Seq<InstanceView>,
    page: Seq<InstanceView>,
    requests: Seq<Seq<Seq<char>>>,
    names: Map<Seq<char>, Seq<char>>,
    tags: Seq<TaggedInstanceView>,
    alarms: Map<Seq<char>, Seq<AlarmInfoView>>,
    reports: Seq<MetricAlarmView>,
)
    ensures
        LoadView::Instances(list).after(LoadEventView::InstancePage(page)) == LoadView::Instances(
            list + page,
        ),
        fleet::compute_ids(list).len() > 0 ==> LoadView::Instances(list).after(LoadEventView::End)
            == (LoadView::Names {
            fleet: list,
            requests: fleet::chunked(fleet::compute_ids(list)),
            names: Map::empty(),
        }),
        fleet::compute_ids(list).len() == 0 ==> LoadView::Instances(list).after(LoadEventView::End)
            == (LoadView::Alarms { fleet: list, names: Map::empty(), alarms: Map::empty() }),
        (LoadView::Names { fleet: list, requests, names }).after(LoadEventView::NamePage(tags)) == (
        LoadView::Names { fleet: list, requests, names: fleet::named_by_all(names, tags) }),
        requests.len() >= 2 ==> (LoadView::Names { fleet: list, requests, names }).after(
            LoadEventView::End,
        ) == (LoadView::Names { fleet: list, requests: requests.skip(1), names }),
        requests.len() <= 1 ==> (LoadView::Names { fleet: list, requests, names }).after(
            LoadEventView::End,
        ) == (LoadView::Alarms { fleet: list, names, alarms: Map::empty() }),
        (LoadView::Alarms { fleet: list, names, alarms }).after(LoadEventView::AlarmPage(reports))
            == (LoadView::Alarms {
            fleet: list,
            names,
            alarms: fleet::attached_by_all(alarms, reports),
        }),
        (LoadView::Alarms { fleet: list, names, alarms }).after(LoadEventView::End)
            == LoadView::Loaded(fleet::all_completed(list, names, alarms)),
{
    if requests.len() >= 1 {
        assert(requests.drop_first() =~= requests.skip(1));
    }
}

/// Pages that are not waited for change nothing.
pub proof fn law_unexpected_pages(load: LoadView, event: LoadEventView)
    requires
        event is InstancePage ==> !(load is Instances),
        event is NamePage ==> !(load is Names),
        event is AlarmPage ==> !(load is Alarms),
        event is End || event is Error ==> load is Loaded || load is Failed,
    ensures
        load.after(event) == load,
{
}

/// A whole loading of a fleet of up to two hundred compute instances: an instance gets the
/// name of its tag and its alarms, and keeps its place.
pub proof fn law_whole_loading(
    page: Seq<InstanceView>,
    tags: Seq<TaggedInstanceView>,
    reports: Seq<MetricAlarmView>,
    i: int,
)
    requires
        0 < fleet::compute_ids(page).len() <= 200,
        0 <= i < page.len(),
    ensures
        ({
            let end = LoadView::Instances(Seq::empty()).after(
                LoadEventView::InstancePage(page),
            ).after(LoadEventView::End).after(LoadEventView::NamePage(tags)).after(
                LoadEventView::End,
            ).after(LoadEventView::AlarmPage(reports)).after(LoadEventView::End);
            let names = fleet::named_by_all(Map::empty(), tags);
            let alarms = fleet::attached_by_all(Map::empty(), reports);
            &&& end matches LoadView::Loaded(fleet)
            &&& fleet.len() == page.len()
            &&& fleet[i].id == page[i].id
            &&& fleet[i].name == (if names.contains_key(page[i].id) {
                names[page[i].id]
            } else {
                page[i].name
            })
            &&& fleet[i].alarms == (if alarms.contains_key(page[i].id) {
                alarms[page[i].id]
            } else {
                page[i].alarms
            })
        }),
{
    let ids = fleet::compute_ids(page);
    let requests = fleet::chunked(ids);
    assert(Seq::<InstanceView>::empty() + page =~= page);
    assert(requests.len() == 1);
    law_completion(
        page,
        fleet::named_by_all(Map::empty(), tags),
        fleet::attached_by_all(Map::empty(), reports),
        i,
    );
}

/// The bookmarks that a text holds are its lines without the white space around them,
/// except those that are blank.
pub proof fn law_stored_ids(contents: Seq<char>, id: Seq<char>)
    ensures
        favorites::stored_ids(contents).contains(id) <==> id.len() > 0 && exists|k: int|
            0 <= k < text::lines_of(contents).len() && text::trimmed(
                #[trigger] text::lines_of(contents)[k],
            ) == id,
{
    let lines = text::lines_of(contents);
    let ids = favorites::line_ids(contents);
    assert(ids.len() == lines.len());
    assert forall|k: int| 0 <= k < lines.len() implies #[trigger] ids[k] == text::trimmed(
        lines[k],
    ) by {}
    if ids.contains(id) {
        let k = choose|k: int| 0 <= k < ids.len() && ids[k] == id;
        assert(text::trimmed(lines[k]) == id);
    }
    if exists|k: int| 0 <= k < lines.len() && text::trimmed(#[trigger] lines[k]) == id {
        let k = choose|k: int| 0 <= k < lines.len() && text::trimmed(#[trigger] lines[k]) == id;
        assert(ids[k] == id);
    }
}

/// The bookmarks lie under `.config/ssm-monitor/favorites` in the home directory.
pub proof fn law_bookmarks_file(home: Seq<char>, c: char)
    ensures
        c != '/' ==> favorites::bookmarks_file(home.push(c)) == home.push(c)
            + "/.config/ssm-monitor/favorites"@,
        favorites::bookmarks_file(home.push('/')) == home
            + "/.config/ssm-monitor/favorites"@,
        favorites::bookmarks_file(Seq::empty()) == ".config/ssm-monitor/favorites"@,
{
    reveal_strlit("");
    reveal_strlit("/");
    reveal_strlit(".config/ssm-monitor/favorites");
    reveal_strlit("/.config/ssm-monitor/favorites");
    let tail = ".config/ssm-monitor/favorites"@;
    let full = "/.config/ssm-monitor/favorites"@;
    assert(full =~= seq!['/'] + tail);
    assert("/"@ =~= seq!['/']);
    assert(""@ =~= Seq::<char>::empty());
    assert(favorites::bookmarks_file(home.push(c)).len() > 0);
    if c != '/' {
        assert(home.push(c) + "/"@ + tail =~= home.push(c) + full);
    }
    assert(home.push('/') + ""@ + tail =~= home + full);
    assert(Seq::<char>::empty() + ""@ + tail =~= tail);
}

/// A section header names what stands between its brackets, without the white space
/// inside and outside of them.
pub proof fn law_section(
    before: Seq<char>,
    inner: Seq<char>,
    after: Seq<char>,
    left: Seq<char>,
    right: Seq<char>,
)
    requires
        text_laws::blank(before),
        text_laws::blank(after),
        text_laws::blank(left),
        text_laws::blank(right),
        text_laws::tight(inner),
    ensures
        profiles::section_name(
            before + (seq!['['] + (left + inner + right) + seq![']']) + after,
        ) == Some(inner),
{
    let body = left + inner + right;
    let t = seq!['['] + body + seq![']'];
    text_laws::law_trimming(before, t, after);
    text_laws::law_trimming(left, inner, right);
    assert(t.subrange(1, t.len() - 1) =~= body);
}

/// A line that is not a header in brackets names no section.
pub proof fn law_no_section(before: Seq<char>, t: Seq<char>, after: Seq<char>)
    requires
        text_laws::blank(before),
        text_laws::blank(after),
        text_laws::tight(t),
        t.len() < 2 || t[0] != '[' || t[t.len() - 1] != ']',
    ensures
        profiles::section_name(before + t + after) is None,
{
    text_laws::law_trimming(before, t, after);
}

/// The profile that a section names: in the credentials its name; in the configuration the
/// name behind the word `profile`, and the default profile without it.
pub proof fn law_profile_of(line: Seq<char>, inner: Seq<char>, white: Seq<char>, name: Seq<char>)
    requires
        profiles::section_name(line) == Some(inner),
    ensures
        profiles::profile_of(line, false) == Some(inner),
        inner == "default"@ ==> profiles::profile_of(line, true) == Some("default"@),
        text_laws::blank(white) && text_laws::tight(name) && inner == "profile "@ + (white + name)
            ==> profiles::profile_of(line, true) == Some(name),
        inner != "default"@ && (forall|rest: Seq<char>| inner != #[trigger] ("profile "@ + rest))
            ==> profiles::profile_of(line, true) is None,
{
    reveal_strlit("default");
    reveal_strlit("profile ");
    let prefix = "profile "@;
    if text_laws::blank(white) && text_laws::tight(name) && inner == prefix + (white + name) {
        assert(inner[0] == 'p');
        assert("default"@[0] == 'd');
        text_laws::law_prefix(inner, prefix, white + name);
        assert(inner.skip(prefix.len() as int) =~= white + name);
        text_laws::law_trimming(white, name, Seq::empty());
        assert(white + name + Seq::<char>::empty() =~= white + name);
    }
    text_laws::law_prefix(inner, prefix, white);
}

/// A line that is no section names no profile.
pub proof fn law_profile_needs_section(line: Seq<char>, with_prefix: bool)
    requires
        profiles::section_name(line) is None,
    ensures
        profiles::profile_of(line, with_prefix) is None,
{
}

/// The profiles to choose from are exactly those that a line of one of the files names,
/// and the default profile alone where none is named or there is no home directory.
pub proof fn law_profiles(
    config: Seq<char>,
    credentials: Seq<char>,
    name: Seq<char>,
    k: int,
)
    ensures
        0 <= k < text::lines_of(config).len() && profiles::profile_of(
            text::lines_of(config)[k],
            true,
        ) == Some(name) ==> profiles::profile_set(Some(config), Some(credentials)).contains(name)
            && profiles::profile_set(Some(config), None).contains(name),
        0 <= k < text::lines_of(credentials).len() && profiles::profile_of(
            text::lines_of(credentials)[k],
            false,
        ) == Some(name) ==> profiles::profile_set(Some(config), Some(credentials)).contains(name)
            && profiles::profile_set(None, Some(credentials)).contains(name),
        profiles::profile_set(Some(config), Some(credentials)).contains(name) && name
            != "default"@ ==> (exists|i: int|
            0 <= i < text::lines_of(config).len() && profiles::profile_of(
                #[trigger] text::lines_of(config)[i],
                true,
            ) == Some(name)) || (exists|i: int|
            0 <= i < text::lines_of(credentials).len() && profiles::profile_of(
                #[trigger] text::lines_of(credentials)[i],
                false,
            ) == Some(name)),
        (forall|i: int|
            0 <= i < text::lines_of(config).len() ==> profiles::profile_of(
                #[trigger] text::lines_of(config)[i],
                true,
            ) is None) && (forall|i: int|
            0 <= i < text::lines_of(credentials).len() ==> profiles::profile_of(
                #[trigger] text::lines_of(credentials)[i],
                false,
            ) is None) ==> profiles::profile_set(Some(config), Some(credentials)).contains(
            "default"@,
        ),
        profiles::profile_set(None, None).contains(name) <==> name == "default"@,
        profiles::profile_choice(None).contains(name) <==> name == "default"@,
{
    let first = text::lines_of(config);
    let second = text::lines_of(credentials);
    let named = profiles::profiles_of(first, true).union(profiles::profiles_of(second, false));
    if 0 <= k < first.len() && profiles::profile_of(first[k], true) == Some(name) {
        assert(profiles::profiles_of(first, true).contains(name));
        assert(named.contains(name));
        assert(profiles::profiles_of(first, true).union(Set::empty()).contains(name));
    }
    if 0 <= k < second.len() && profiles::profile_of(second[k], false) == Some(name) {
        assert(profiles::profiles_of(second, false).contains(name));
        assert(named.contains(name));
        assert(Set::<Seq<char>>::empty().union(profiles::profiles_of(second, false)).contains(
            name,
        ));
    }
    if profiles::profiles_of(first, true).contains(name) {
        let i = choose|i: int|
            0 <= i < first.len() && #[trigger] profiles::profile_of(first[i], true) == Some(name);
        assert(profiles::profile_of(first[i], true) == Some(name));
    }
    if profiles::profiles_of(second, false).contains(name) {
        let i = choose|i: int|
            0 <= i < second.len() && #[trigger] profiles::profile_of(second[i], false) == Some(
                name,
            );
        assert(profiles::profile_of(second[i], false) == Some(name));
    }
    if named != Set::<Seq<char>>::empty() && (forall|i: int|
        0 <= i < first.len() ==> profiles::profile_of(#[trigger] first[i], true) is None) && (
    forall|i: int|
        0 <= i < second.len() ==> profiles::profile_of(#[trigger] second[i], false) is None) {
        assert(named =~= Set::<Seq<char>>::empty());
    }
    assert(Set::<Seq<char>>::empty().union(Set::<Seq<char>>::empty()) =~= Set::<
        Seq<char>,
    >::empty());
}

/// A profile that no line names is not among those to choose from where another one is
/// named; this holds of the default profile too.
pub proof fn law_no_other_profiles(
    config: Option<Seq<char>>,
    credentials: Option<Seq<char>>,
    name: Seq<char>,
    other: Seq<char>,
    k: int,
)
    requires
        config matches Some(c) ==> forall|i: int|
            0 <= i < text::lines_of(c).len() ==> profiles::profile_of(
                #[trigger] text::lines_of(c)[i],
                true,
            ) != Some(name),
        credentials matches Some(c) ==> forall|i: int|
            0 <= i < text::lines_of(c).len() ==> profiles::profile_of(
                #[trigger] text::lines_of(c)[i],
                false,
            ) != Some(name),
        (config is Some && 0 <= k < text::lines_of(config->0).len() && profiles::profile_of(
            text::lines_of(config->0)[k],
            true,
        ) == Some(other)) || (credentials is Some && 0 <= k < text::lines_of(credentials->0).len()
            && profiles::profile_of(text::lines_of(credentials->0)[k], false) == Some(other)),
    ensures
        !profiles::profile_set(config, credentials).contains(name),
        profiles::profile_set(config, credentials).contains(other),
{
    let named = profiles::profiles_in(config, true).union(
        profiles::profiles_in(credentials, false),
    );
    assert(named.contains(other));
    match config {
        Some(c) => {
            if profiles::profiles_of(text::lines_of(c), true).contains(name) {
                let i = choose|i: int|
                    0 <= i < text::lines_of(c).len() && #[trigger] profiles::profile_of(
                        text::lines_of(c)[i],
                        true,
                    ) == Some(name);
                assert(profiles::profile_of(text::lines_of(c)[i], true) != Some(name));
            }
        },
        None => {},
    }
    match credentials {
        Some(c) => {
            if profiles::profiles_of(text::lines_of(c), false).contains(name) {
                let i = choose|i: int|
                    0 <= i < text::lines_of(c).len() && #[trigger] profiles::profile_of(
                        text::lines_of(c)[i],
                        false,
                    ) == Some(name);
                assert(profiles::profile_of(text::lines_of(c)[i], false) != Some(name));
            }
        },
        None => {},
    }
    assert(!named.contains(name));
}

/// Where no line names a profile, the default profile alone is to choose from.
pub proof fn law_default_profile(
    config: Option<Seq<char>>,
    credentials: Option<Seq<char>>,
    name: Seq<char>,
)
    requires
        config matches Some(c) ==> forall|i: int|
            0 <= i < text::lines_of(c).len() ==> profiles::profile_of(
                #[trigger] text::lines_of(c)[i],
                true,
            ) is None,
        credentials matches Some(c) ==> forall|i: int|
            0 <= i < text::lines_of(c).len() ==> profiles::profile_of(
                #[trigger] text::lines_of(c)[i],
                false,
            ) is None,
    ensures
        profiles::profile_set(config, credentials).contains(name) <==> name == "default"@,
{
    let named = profiles::profiles_in(config, true).union(
        profiles::profiles_in(credentials, false),
    );
    match config {
        Some(c) => {
            assert forall|x: Seq<char>| !profiles::profiles_of(text::lines_of(c), true).contains(
                x,
            ) by {
                if profiles::profiles_of(text::lines_of(c), true).contains(x) {
                    let i = choose|i: int|
                        0 <= i < text::lines_of(c).len() && #[trigger] profiles::profile_of(
                            text::lines_of(c)[i],
                            true,
                        ) == Some(x);
                    assert(profiles::profile_of(text::lines_of(c)[i], true) is None);
                }
            }
        },
        None => {},
    }
    match credentials {
        Some(c) => {
            assert forall|x: Seq<char>| !profiles::profiles_of(text::lines_of(c), false).contains(
                x,
            ) by {
                if profiles::profiles_of(text::lines_of(c), false).contains(x) {
                    let i = choose|i: int|
                        0 <= i < text::lines_of(c).len() && #[trigger] profiles::profile_of(
                            text::lines_of(c)[i],
                            false,
                        ) == Some(x);
                    assert(profiles::profile_of(text::lines_of(c)[i], false) is None);
                }
            }
        },
        None => {},
    }
    assert(named =~= Set::<Seq<char>>::empty());
}

/// The profiles are those of the two files as they were read.
pub proof fn law_profile_files(files: ProfileFiles)
    ensures
        profiles::profile_choice(Some(files)) == profiles::profile_set(
            text::text_opt(files.config),
            text::text_opt(files.credentials),
        ),
{
}

} // verus!
