//! Loading the fleet: the instances, then their names, then their alarms, page by page.

use vstd::prelude::*;
use crate::alarm::AlarmInfoView;
use crate::fleet;
use crate::fleet::{
    AlarmIndex, InstanceInformation, MetricAlarm, MetricAlarmView, NameIndex, TaggedInstance,
    TaggedInstanceView,
};
use crate::instance::{Instance, InstanceView};
use crate::model;
use crate::text;

verus! {

/// How far the loading has come.
pub enum Load {
    /// Pages of instances are read; these are the instances so far.
    Instances(Vec<Instance>),
    /// Pages of names are read for the ids of the first request that is left.
    Names { fleet: Vec<Instance>, requests: Vec<Vec<String>>, names: NameIndex },
    /// Pages of alarms are read.
    Alarms { fleet: Vec<Instance>, names: NameIndex, alarms: AlarmIndex },
    /// All is read.
    Loaded(Vec<Instance>),
    /// The instances or their names could not be read.
    Failed(String),
}

/// What a `Load` says.
pub enum LoadView {
    Instances(Seq<InstanceView>),
    Names {
        fleet: Seq<InstanceView>,
        requests: Seq<Seq<Seq<char>>>,
        names: Map<Seq<char>, Seq<char>>,
    },
    Alarms {
        fleet: Seq<InstanceView>,
        names: Map<Seq<char>, Seq<char>>,
        alarms: Map<Seq<char>, Seq<AlarmInfoView>>,
    },
    Loaded(Seq<InstanceView>),
    Failed(Seq<char>),
}

impl View for Load {
    type V = LoadView;

    open spec fn view(&self) -> LoadView {
        match self {
            Load::Instances(fleet) => LoadView::Instances(model::views(fleet@)),
            Load::Names { fleet, requests, names } => LoadView::Names {
                fleet: model::views(fleet@),
                requests: fleet::all_texts(requests@),
                names: names@,
            },
            Load::Alarms { fleet, names, alarms } => LoadView::Alarms {
                fleet: model::views(fleet@),
                names: names@,
                alarms: alarms@,
            },
            Load::Loaded(fleet) => LoadView::Loaded(model::views(fleet@)),
            Load::Failed(error) => LoadView::Failed(error@),
        }
    }
}

/// What was read.
pub enum LoadEvent {
    InstancePage(Vec<InstanceInformation>),
    NamePage(Vec<TaggedInstance>),
    AlarmPage(Vec<MetricAlarm>),
    /// There are no more pages.
    End,
    /// A page could not be read.
    Error(String),
}

/// What a `LoadEvent` says.
pub enum LoadEventView {
    InstancePage(Seq<InstanceView>),
    NamePage(Seq<TaggedInstanceView>),
    AlarmPage(Seq<MetricAlarmView>),
    End,
    Error(Seq<char>),
}

impl View for LoadEvent {
    type V = LoadEventView;

    open spec fn view(&self) -> LoadEventView {
        match self {
            LoadEvent::InstancePage(page) => LoadEventView::InstancePage(model::views(page@)),
            LoadEvent::NamePage(page) => LoadEventView::NamePage(model::views(page@)),
            LoadEvent::AlarmPage(page) => LoadEventView::AlarmPage(model::views(page@)),
            LoadEvent::End => LoadEventView::End,
            LoadEvent::Error(error) => LoadEventView::Error(error@),
        }
    }
}

/// The state in which `requests` for names are left.
pub open spec fn naming(
    fleet: Seq<InstanceView>,
    requests: Seq<Seq<Seq<char>>>,
    names: Map<Seq<char>, Seq<char>>,
) -> LoadView {
    if requests.len() == 0 {
        LoadView::Alarms { fleet, names, alarms: Map::empty() }
    } else {
        LoadView::Names { fleet, requests, names }
    }
}

/// The requests that are left when the first one is answered.
pub open spec fn answered(requests: Seq<Seq<Seq<char>>>) -> Seq<Seq<Seq<char>>> {
    if requests.len() == 0 {
        requests
    } else {
        requests.drop_first()
    }
}

impl LoadView {
    /// How far the loading has come after `event`. Without all instances or all names
    /// it fails; without all alarms the fleet has none. What is not waited for changes
    /// nothing.
    pub open spec fn after(self, event: LoadEventView) -> LoadView {
        match (self, event) {
            (LoadView::Instances(fleet), LoadEventView::InstancePage(page)) => {
                LoadView::Instances(fleet + page)
            },
            (LoadView::Instances(fleet), LoadEventView::End) => naming(
                fleet,
                fleet::chunked(fleet::compute_ids(fleet)),
                Map::empty(),
            ),
            (LoadView::Instances(_), LoadEventView::Error(error)) => LoadView::Failed(error),
            (LoadView::Names { fleet, requests, names }, LoadEventView::NamePage(page)) => {
                LoadView::Names { fleet, requests, names: fleet::named_by_all(names, page) }
            },
            (LoadView::Names { fleet, requests, names }, LoadEventView::End) => naming(
                fleet,
                answered(requests),
                names,
            ),
            (LoadView::Names { .. }, LoadEventView::Error(error)) => LoadView::Failed(error),
            (LoadView::Alarms { fleet, names, alarms }, LoadEventView::AlarmPage(page)) => {
                LoadView::Alarms { fleet, names, alarms: fleet::attached_by_all(alarms, page) }
            },
            (LoadView::Alarms { fleet, names, alarms }, LoadEventView::End) => LoadView::Loaded(
                fleet::all_completed(fleet, names, alarms),
            ),
            (LoadView::Alarms { fleet, names, .. }, LoadEventView::Error(_)) => {
                LoadView::Loaded(fleet::all_completed(fleet, names, Map::empty()))
            },
            _ => self,
        }
    }
}

fn read_names(fleet: Vec<Instance>, requests: Vec<Vec<String>>, names: NameIndex) -> (load: Load)
    ensures
        load@ == naming(model::views(fleet@), fleet::all_texts(requests@), names@),
{
    if requests.len() == 0 {
        Load::Alarms { fleet, names, alarms: AlarmIndex::new() }
    } else {
        Load::Names { fleet, requests, names }
    }
}

impl Load {
    /// Nothing is read.
    pub fn start() -> (load: Load)
        ensures
            load@ == LoadView::Instances(Seq::empty()),
    {
        let fleet: Vec<Instance> = Vec::new();
        assert(model::views(fleet@) =~= Seq::<InstanceView>::empty());
        Load::Instances(fleet)
    }

    /// The ids for which names are asked, while names are read.
    pub fn request(&self) -> (ids: Option<&Vec<String>>)
        ensures
            match self@ {
                LoadView::Names { requests, .. } => if requests.len() > 0 {
                    ids matches Some(list) && text::texts(list@) == requests[0]
                } else {
                    ids is None
                },
                _ => ids is None,
            },
    {
        match self {
            Load::Names { requests, .. } => {
                if requests.len() > 0 {
                    Some(&requests[0])
                } else {
                    None
                }
            },
            _ => None,
        }
    }

    /// How far the loading has come after `event`.
    pub fn next(self, event: LoadEvent) -> (load: Load)
        ensures
            load@ == self@.after(event@),
    {
        match (self, event) {
            (Load::Instances(fleet), LoadEvent::InstancePage(page)) => {
                let mut fleet = fleet;
                fleet::add_page(&mut fleet, page);
                Load::Instances(fleet)
            },
            (Load::Instances(fleet), LoadEvent::End) => {
                let ids = fleet::ec2_ids(&fleet);
                let requests = fleet::id_chunks(&ids);
                read_names(fleet, requests, NameIndex::new())
            },
            (Load::Instances(_), LoadEvent::Error(error)) => Load::Failed(error),
            (Load::Names { fleet, requests, names }, LoadEvent::NamePage(page)) => {
                let mut names = names;
                names.add_page(&page);
                Load::Names { fleet, requests, names }
            },
            (Load::Names { fleet, requests, names }, LoadEvent::End) => {
                let mut requests = requests;
                let ghost all = fleet::all_texts(requests@);
                if requests.len() > 0 {
                    requests.remove(0);
                }
                assert(fleet::all_texts(requests@) =~= answered(all));
                read_names(fleet, requests, names)
            },
            (Load::Names { .. }, LoadEvent::Error(error)) => Load::Failed(error),
            (Load::Alarms { fleet, names, alarms }, LoadEvent::AlarmPage(page)) => {
                let mut alarms = alarms;
                alarms.add_page(page);
                Load::Alarms { fleet, names, alarms }
            },
            (Load::Alarms { fleet, names, alarms }, LoadEvent::End) => Load::Loaded(
                fleet::fetch_instances(fleet, &names, Some(alarms)),
            ),
            (Load::Alarms { fleet, names, .. }, LoadEvent::Error(_)) => Load::Loaded(
                fleet::fetch_instances(fleet, &names, None),
            ),
            (load, _) => load,
        }
    }
}

impl LoadView {
    /// The ids of the instances that were read so far; none after a failure.
    pub open spec fn ids(self) -> Seq<Seq<char>> {
        let fleet = match self {
            LoadView::Instances(fleet) => fleet,
            LoadView::Names { fleet, .. } => fleet,
            LoadView::Alarms { fleet, .. } => fleet,
            LoadView::Loaded(fleet) => fleet,
            LoadView::Failed(_) => seq![],
        };
        fleet.map_values(|i: InstanceView| i.id)
    }

    /// Whether nothing is left to read.
    pub open spec fn over(self) -> bool {
        self is Loaded || self is Failed
    }

    /// How far the loading has come after all of `events`.
    pub open spec fn after_all(self, events: Seq<LoadEventView>) -> LoadView
        decreases events.len(),
    {
        if events.len() == 0 {
            self
        } else {
            self.after_all(events.drop_last()).after(events.last())
        }
    }
}

/// Once the instances are read, no answer adds one, takes one away or moves one.
pub proof fn law_loading_keeps_ids(load: LoadView, event: LoadEventView)
    requires
        !(load is Instances),
        !(load.after(event) is Failed),
    ensures
        load.after(event).ids() == load.ids(),
{
    match load {
        LoadView::Alarms { fleet, names, alarms } => {
            let id = |i: InstanceView| i.id;
            assert(fleet::all_completed(fleet, names, alarms).map_values(id) =~= fleet.map_values(
                id,
            ));
            assert(fleet::all_completed(
                fleet,
                names,
                Map::<Seq<char>, Seq<AlarmInfoView>>::empty(),
            ).map_values(id) =~= fleet.map_values(id));
        },
        _ => {},
    }
}

/// What is loaded or has failed stays so.
pub proof fn law_loading_ends(load: LoadView, events: Seq<LoadEventView>)
    requires
        load.over(),
    ensures
        load.after_all(events) == load,
    decreases events.len(),
{
    if events.len() > 0 {
        law_loading_ends(load, events.drop_last());
    }
}

/// Without a page of instances or of names the loading fails, with the error that came.
pub proof fn law_instances_and_names_are_needed(load: LoadView, error: Seq<char>)
    requires
        load is Instances || load is Names,
    ensures
        load.after(LoadEventView::Error(error)) == LoadView::Failed(error),
{
}

/// Without a page of alarms the fleet is loaded all the same, with the names and with
/// the alarms that the instances came with, however many pages of alarms were read.
pub proof fn law_alarms_are_not_needed(
    fleet: Seq<InstanceView>,
    names: Map<Seq<char>, Seq<char>>,
    alarms: Map<Seq<char>, Seq<AlarmInfoView>>,
    error: Seq<char>,
)
    ensures
        (LoadView::Alarms { fleet, names, alarms }).after(LoadEventView::Error(error))
            == LoadView::Loaded(fleet::all_completed(fleet, names, Map::empty())),
        forall|i: int|
            0 <= i < fleet.len() ==> (#[trigger] fleet::all_completed(
                fleet,
                names,
                Map::<Seq<char>, Seq<AlarmInfoView>>::empty(),
            )[i]).alarms == fleet[i].alarms,
{
}

} // verus!
