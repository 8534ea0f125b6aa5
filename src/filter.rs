use vstd::prelude::*;

verus! {

/// The services a scanning session asks for, as 128-bit UUID values.
/// An empty list accepts every advertisement.
pub struct ScanFilter {
    pub services: Vec<u128>,
}

impl View for ScanFilter {
    type V = Set<u128>;

    open spec fn view(&self) -> Set<u128> {
        self.services@.to_set()
    }
}

/// What the dispatch reads of one advertisement that the platform reported.
pub struct ReceivedEvent {
    /// Whether the platform handed over an advertisement at all.
    pub has_payload: bool,
    /// The advertised service UUIDs, `None` where the list could not be read;
    /// an entry is `None` where that one UUID could not be read.
    pub service_uuids: Option<Vec<Option<u128>>>,
}

/// A received event as the filter sees it.
pub struct EventView {
    pub has_payload: bool,
    pub service_uuids: Option<Seq<Option<u128>>>,
}

impl View for ReceivedEvent {
    type V = EventView;

    open spec fn view(&self) -> EventView {
        EventView {
            has_payload: self.has_payload,
            service_uuids: match self.service_uuids {
                Some(v) => Some(v@),
                None => None,
            },
        }
    }
}

/// An entry of an advertised UUID list that was read and names a wanted service.
pub open spec fn entry_wanted(services: Set<u128>, entry: Option<u128>) -> bool {
    entry matches Some(u) && services.contains(u)
}

/// Whether the handler runs for `event` under a filter on `services`: the event
/// carries an advertisement, and either the filter is empty or some advertised
/// UUID that could be read is one of the services.
pub open spec fn delivers(services: Set<u128>, event: EventView) -> bool {
    &&& event.has_payload
    &&& (services.is_empty() || (event.service_uuids matches Some(uuids) && exists|i: int|
        0 <= i < uuids.len() && #[trigger] entry_wanted(services, uuids[i])))
}

/// The service UUIDs that an event advertises, as far as they could be read.
pub open spec fn advertised(event: EventView) -> Set<u128> {
    if event.has_payload && event.service_uuids is Some {
        Set::new(|u: u128| event.service_uuids->0.contains(Some(u)))
    } else {
        Set::empty()
    }
}

impl ScanFilter {
    /// A filter on the same services, in the same order.
    pub fn duplicate(&self) -> (r: ScanFilter)
        ensures
            r.services@ == self.services@,
    {
        let mut services: Vec<u128> = Vec::new();
        let mut i: usize = 0;
        while i < self.services.len()
            invariant
                i <= self.services.len(),
                services@ == self.services@.subrange(0, i as int),
            decreases self.services.len() - i,
        {
            services.push(self.services[i]);
            i += 1;
            assert(services@ =~= self.services@.subrange(0, i as int));
        }
        assert(services@ =~= self.services@);
        ScanFilter { services }
    }

    /// Whether the filter lets every advertisement through.
    pub fn accepts_all(&self) -> (r: bool)
        ensures
            r == self@.is_empty(),
    {
        if self.services.len() == 0 {
            assert(self@ =~= Set::<u128>::empty());
            true
        } else {
            assert(self@.contains(self.services@[0]));
            false
        }
    }

    /// Whether `uuid` is one of the filter's services.
    pub fn contains(&self, uuid: u128) -> (r: bool)
        ensures
            r == self@.contains(uuid),
    {
        let mut i: usize = 0;
        while i < self.services.len()
            invariant
                i <= self.services.len(),
                forall|j: int| 0 <= j < i ==> self.services@[j] != uuid,
            decreases self.services.len() - i,
        {
            if self.services[i] == uuid {
                assert(self.services@.contains(uuid));
                return true;
            }
            i += 1;
        }
        false
    }

    /// The verdict of the dispatch on one received event: `true` when the
    /// handler is to run for it. The advertised UUIDs are read in order and
    /// the scan stops at the first one wanted, so an event yields one verdict
    /// however many of its UUIDs match.
    pub fn accepts(&self, event: &ReceivedEvent) -> (r: bool)
        ensures
            r == delivers(self@, event@),
    {
        if !event.has_payload {
            return false;
        }
        if self.accepts_all() {
            return true;
        }
        match &event.service_uuids {
            None => false,
            Some(uuids) => {
                let mut i: usize = 0;
                while i < uuids.len()
                    invariant
                        i <= uuids.len(),
                        event.has_payload,
                        !self@.is_empty(),
                        event@.service_uuids == Some(uuids@),
                        forall|j: int| 0 <= j < i ==> !entry_wanted(self@, #[trigger] uuids@[j]),
                    decreases uuids.len() - i,
                {
                    if let Some(u) = uuids[i] {
                        if self.contains(u) {
                            assert(entry_wanted(self@, uuids@[i as int]));
                            assert(event@.service_uuids->0[i as int] == uuids@[i as int]);
                            assert(delivers(self@, event@));
                            return true;
                        }
                    }
                    i += 1;
                }
                false
            },
        }
    }
}

/// With an empty filter, every event that carries an advertisement gets the
/// verdict to run the handler, whatever UUIDs it advertises.
pub proof fn lemma_empty_filter_delivers_all(services: Set<u128>, event: EventView)
    requires
        services.is_empty(),
        event.has_payload,
    ensures
        delivers(services, event),
{
}

/// With a filter that names some service, an event is delivered exactly when
/// one of the UUIDs it advertises is among the filter's services.
pub proof fn lemma_delivers_iff_shares_service(services: Set<u128>, event: EventView)
    requires
        !services.is_empty(),
    ensures
        delivers(services, event) <==> exists|u: u128|
            #[trigger] advertised(event).contains(u) && services.contains(u),
{
    if delivers(services, event) {
        let uuids = event.service_uuids->0;
        let i = choose|i: int| 0 <= i < uuids.len() && #[trigger] entry_wanted(services, uuids[i]);
        let u = uuids[i]->0;
        assert(uuids[i] == Some(u));
        assert(uuids.contains(Some(u)));
        assert(advertised(event).contains(u) && services.contains(u));
    }
    if exists|u: u128| #[trigger] advertised(event).contains(u) && services.contains(u) {
        let u = choose|u: u128| #[trigger] advertised(event).contains(u) && services.contains(u);
        let uuids = event.service_uuids->0;
        assert(uuids.contains(Some(u)));
        let i = choose|i: int| 0 <= i < uuids.len() && uuids[i] == Some(u);
        assert(entry_wanted(services, uuids[i]));
    }
}

/// An event that advertises several wanted services still gets one verdict to
/// run the handler: it is delivered, once.
pub proof fn lemma_several_matches_one_delivery(
    services: Set<u128>,
    event: EventView,
    i: int,
    j: int,
)
    requires
        event.has_payload,
        event.service_uuids is Some,
        0 <= i < j < event.service_uuids->0.len(),
        entry_wanted(services, event.service_uuids->0[i]),
        entry_wanted(services, event.service_uuids->0[j]),
    ensures
        delivers(services, event),
{
}

/// An event without an advertisement is never delivered; nor is one whose
/// UUID list could not be read, under a filter that has to look at that list.
pub proof fn lemma_malformed_never_delivered(services: Set<u128>, event: EventView)
    requires
        !event.has_payload || (event.service_uuids is None && !services.is_empty()),
    ensures
        !delivers(services, event),
{
}

} // verus!
