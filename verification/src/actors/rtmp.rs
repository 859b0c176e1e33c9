//! The RTMP ingest: which stream the PS5 publishes, and the stream events.
use vstd::prelude::*;
use crate::common::event::Event;
use crate::text::{chars_of, starts_with, string_of};

verus! {

/// Whether a stream started or stopped.
#[derive(Debug, Clone, Copy, PartialEq, Eq, Structural)]
pub enum StreamEventType {
    Started,
    Stopped,
}

/// A stream event of the ingest.
pub struct StreamEvent {
    pub app: String,
    pub stream_key: String,
    pub event_type: StreamEventType,
}

/// Keys (stream keys) with their values (apps).
pub type Pairs = Seq<(Seq<char>, Seq<char>)>;

/// The map that a list of pairs stands for; later pairs win.
pub open spec fn map_of(s: Pairs) -> Map<Seq<char>, Seq<char>>
    decreases s.len(),
{
    if s.len() == 0 {
        Map::empty()
    } else {
        map_of(s.drop_last()).insert(s.last().0, s.last().1)
    }
}

/// No key stands twice.
pub open spec fn distinct_keys(s: Pairs) -> bool {
    forall|i: int, j: int| 0 <= i < j < s.len() ==> s[i].0 != s[j].0
}

proof fn lemma_map_dom(s: Pairs, k: Seq<char>)
    ensures
        map_of(s).dom().contains(k) <==> exists|i: int| 0 <= i < s.len() && s[i].0 == k,
    decreases s.len(),
{
    if s.len() > 0 {
        lemma_map_dom(s.drop_last(), k);
        if map_of(s).dom().contains(k) && k != s.last().0 {
            let i = choose|i: int| 0 <= i < s.drop_last().len() && s.drop_last()[i].0 == k;
            assert(s[i].0 == k);
        }
        if exists|i: int| 0 <= i < s.len() && s[i].0 == k {
            let i = choose|i: int| 0 <= i < s.len() && s[i].0 == k;
            if i < s.len() - 1 {
                assert(s.drop_last()[i].0 == k);
            }
        }
    }
}

proof fn lemma_map_remove(s: Pairs, i: int)
    requires
        distinct_keys(s),
        0 <= i < s.len(),
    ensures
        map_of(s.remove(i)) == map_of(s).remove(s[i].0),
        distinct_keys(s.remove(i)),
    decreases s.len(),
{
    let k = s[i].0;
    if i == s.len() - 1 {
        assert(s.remove(i) =~= s.drop_last());
        lemma_map_dom(s.drop_last(), k);
        if map_of(s.drop_last()).dom().contains(k) {
            let j = choose|j: int| 0 <= j < s.drop_last().len() && s.drop_last()[j].0 == k;
            assert(s[j].0 == k);
        }
        assert(map_of(s.remove(i)) =~= map_of(s).remove(k));
    } else {
        let d = s.drop_last();
        assert(distinct_keys(d));
        lemma_map_remove(d, i);
        assert(s.remove(i) =~= d.remove(i).push(s.last()));
        assert(s.remove(i).drop_last() =~= d.remove(i));
        assert(s.last().0 != k);
        assert(map_of(s.remove(i)) =~= map_of(s).remove(k));
    }
    assert(distinct_keys(s.remove(i))) by {
        assert forall|a: int, b: int| 0 <= a < b < s.remove(i).len() implies s.remove(i)[a].0
            != s.remove(i)[b].0 by {
            let a2 = if a < i { a } else { a + 1 };
            let b2 = if b < i { b } else { b + 1 };
            assert(s.remove(i)[a] == s[a2]);
            assert(s.remove(i)[b] == s[b2]);
        }
    }
}

/// The ingest's record of streams: the stream being published, and every
/// active stream key with its app.
pub struct RtmpTracker {
    current_stream: Option<String>,
    active_streams: Vec<(String, String)>,
}

/// The record as the contracts see it.
#[verifier::ext_equal]
pub struct RtmpTrackerV {
    pub current: Option<Seq<char>>,
    pub active: Map<Seq<char>, Seq<char>>,
}

impl RtmpTracker {
    /// The pairs of the active streams.
    pub closed spec fn pairs(&self) -> Pairs {
        self.active_streams@.map_values(|p: (String, String)| (p.0@, p.1@))
    }

    /// The record is well formed: no stream key stands twice.
    pub closed spec fn wf(&self) -> bool {
        distinct_keys(self.pairs())
    }

    /// The abstract record.
    pub closed spec fn abs(&self) -> RtmpTrackerV {
        RtmpTrackerV {
            current: match self.current_stream {
                Some(s) => Some(s@),
                None => None,
            },
            active: map_of(self.pairs()),
        }
    }
}

impl View for RtmpTracker {
    type V = RtmpTrackerV;

    open spec fn view(&self) -> RtmpTrackerV {
        self.abs()
    }
}

/// A start of `key` by `app`: it becomes the current stream and is recorded as active.
pub open spec fn started_spec(v: RtmpTrackerV, app: Seq<char>, key: Seq<char>) -> RtmpTrackerV {
    RtmpTrackerV { current: Some(key), active: v.active.insert(key, app) }
}

/// A stop of `key`: no current stream, and `key` is no longer active.
pub open spec fn stopped_spec(v: RtmpTrackerV, key: Seq<char>) -> RtmpTrackerV {
    RtmpTrackerV { current: None, active: v.active.remove(key) }
}

/// Whether a closed connection with flash version `flash_ver` ends a stream:
/// a PS5 whose stream is still current.
pub open spec fn disconnect_ends(v: RtmpTrackerV, flash_ver: Seq<char>) -> bool {
    has_ps5_prefix(flash_ver) && v.current is Some
}

/// The record after a connection with flash version `flash_ver` closed.
pub open spec fn disconnected_spec(v: RtmpTrackerV, flash_ver: Seq<char>) -> RtmpTrackerV {
    if disconnect_ends(v, flash_ver) {
        RtmpTrackerV { current: None, active: Map::empty() }
    } else {
        v
    }
}

impl RtmpTracker {
    /// An empty record.
    pub fn new() -> (t: RtmpTracker)
        ensures
            t.wf(),
            t@.current is None,
            t@.active == Map::<Seq<char>, Seq<char>>::empty(),
    {
        let t = RtmpTracker { current_stream: None, active_streams: Vec::new() };
        assert(t.pairs() =~= Seq::<(Seq<char>, Seq<char>)>::empty());
        t
    }

    /// Removes `key` from the active streams.
    fn remove_key(&mut self, key: &String)
        requires
            old(self).wf(),
        ensures
            final(self).wf(),
            final(self)@.active == old(self)@.active.remove(key@),
            final(self).current_stream == old(self).current_stream,
    {
        let mut i: usize = 0;
        while i < self.active_streams.len()
            invariant
                0 <= i <= self.active_streams.len(),
                *self == *old(self),
                old(self).wf(),
                forall|j: int| 0 <= j < i ==> self.pairs()[j].0 != key@,
            decreases self.active_streams.len() - i,
        {
            assert(self.pairs()[i as int] == (self.active_streams@[i as int].0@, self.active_streams@[i as int].1@));
            if self.active_streams[i].0 == *key {
                let ghost s = self.pairs();
                proof {
                    lemma_map_remove(s, i as int);
                }
                self.active_streams.remove(i);
                assert(self.pairs() =~= s.remove(i as int));
                return;
            }
            i = i + 1;
        }
        proof {
            lemma_map_dom(self.pairs(), key@);
            if map_of(self.pairs()).dom().contains(key@) {
                let j = choose|j: int| 0 <= j < self.pairs().len() && self.pairs()[j].0 == key@;
                assert(false);
            }
            assert(map_of(self.pairs()) =~= map_of(self.pairs()).remove(key@));
        }
    }

    /// Records `key` as active with `app`, replacing an earlier entry.
    fn insert_key(&mut self, key: String, app: String)
        requires
            old(self).wf(),
        ensures
            final(self).wf(),
            final(self)@.active == old(self)@.active.insert(key@, app@),
            final(self).current_stream == old(self).current_stream,
    {
        self.remove_key(&key);
        let ghost s = self.pairs();
        proof {
            lemma_map_dom(s, key@);
        }
        self.active_streams.push((key, app));
        assert(self.pairs() =~= s.push((key@, app@)));
        assert(self.pairs().drop_last() =~= s);
        assert(distinct_keys(self.pairs())) by {
            assert forall|a: int, b: int| 0 <= a < b < self.pairs().len() implies self.pairs()[a].0
                != self.pairs()[b].0 by {
                if b == s.len() {
                    assert(self.pairs()[a] == s[a]);
                    assert(!map_of(s).dom().contains(key@));
                }
            }
        }
    }

    /// A stream event of the ingest: a start makes `stream_key` the current
    /// stream and records it with its app; a stop clears the current stream and
    /// forgets the key. The event goes on with what it carries.
    pub fn handle_stream_event(&mut self, app: String, stream_key: String, event_type: StreamEventType) -> (e: StreamEvent)
        requires
            old(self).wf(),
        ensures
            final(self).wf(),
            event_type == StreamEventType::Started ==> final(self)@ == started_spec(
                old(self)@,
                app@,
                stream_key@,
            ),
            event_type == StreamEventType::Stopped ==> final(self)@ == stopped_spec(
                old(self)@,
                stream_key@,
            ),
            e.app == app,
            e.stream_key == stream_key,
            e.event_type == event_type,
    {
        match event_type {
            StreamEventType::Started => {
                self.current_stream = Some(stream_key.clone());
                self.insert_key(stream_key.clone(), app.clone());
            },
            StreamEventType::Stopped => {
                self.current_stream = None;
                self.remove_key(&stream_key);
            },
        }
        StreamEvent { app, stream_key, event_type }
    }

    /// The publisher stopped: no current stream, `stream_key` forgotten, and a
    /// stop event with empty app and key.
    pub fn on_unpublish(&mut self, stream_key: &String) -> (e: StreamEvent)
        requires
            old(self).wf(),
        ensures
            final(self).wf(),
            final(self)@ == stopped_spec(old(self)@, stream_key@),
            e.app@ == Seq::<char>::empty(),
            e.stream_key@ == Seq::<char>::empty(),
            e.event_type == StreamEventType::Stopped,
    {
        self.current_stream = None;
        self.remove_key(stream_key);
        StreamEvent { app: String::new(), stream_key: String::new(), event_type: StreamEventType::Stopped }
    }

    /// A connection closed. Only a PS5 (flash version starting with
    /// `PlayStation5`) that was still publishing counts: then the record is
    /// emptied and a stop event (empty app and key) is due; otherwise nothing
    /// changes.
    pub fn on_disconnect(&mut self, flash_ver: &str) -> (e: Option<StreamEvent>)
        requires
            old(self).wf(),
        ensures
            final(self).wf(),
            final(self)@ == disconnected_spec(old(self)@, flash_ver@),
            disconnect_ends(old(self)@, flash_ver@) ==> (e matches Some(ev) && ev.app@
                == Seq::<char>::empty() && ev.stream_key@ == Seq::<char>::empty() && ev.event_type
                == StreamEventType::Stopped),
            !disconnect_ends(old(self)@, flash_ver@) ==> e is None,
    {
        let v = chars_of(flash_ver);
        if !starts_with(&v, "PlayStation5") {
            return None;
        }
        if self.current_stream.is_none() {
            return None;
        }
        self.current_stream = None;
        self.active_streams = Vec::new();
        assert(self.pairs() =~= Seq::<(Seq<char>, Seq<char>)>::empty());
        assert(self@.active =~= Map::<Seq<char>, Seq<char>>::empty());
        Some(StreamEvent { app: String::new(), stream_key: String::new(), event_type: StreamEventType::Stopped })
    }
}

/// The flash version of a PS5.
pub open spec fn has_ps5_prefix(flash_ver: Seq<char>) -> bool {
    crate::text::has_prefix(flash_ver, "PlayStation5"@)
}

/// The system event of a stream event: a start becomes a publish with its app
/// and key, a stop an unpublish.
pub fn stream_event_to_event(se: StreamEvent) -> (e: Event)
    ensures
        se.event_type == StreamEventType::Started ==> e == (Event::RtmpPublish {
            app: se.app,
            stream_key: se.stream_key,
        }),
        se.event_type == StreamEventType::Stopped ==> e is RtmpUnpublish,
{
    match se.event_type {
        StreamEventType::Started => Event::RtmpPublish { app: se.app, stream_key: se.stream_key },
        StreamEventType::Stopped => Event::RtmpUnpublish,
    }
}

/// Once a stream stopped (on unpublish), the closing of the connection that
/// follows ends nothing more and leaves the record as it is, whatever the
/// client: each stream ends with a single stop event.
pub proof fn law_unpublish_then_disconnect_is_quiet(v: RtmpTrackerV, key: Seq<char>, flash_ver: Seq<char>)
    ensures
        !disconnect_ends(stopped_spec(v, key), flash_ver),
        disconnected_spec(stopped_spec(v, key), flash_ver) == stopped_spec(v, key),
{
}

/// Starting a stream and stopping it again leaves no current stream and the
/// active streams as they were, less that key.
pub proof fn law_start_then_stop(v: RtmpTrackerV, app: Seq<char>, key: Seq<char>)
    ensures
        stopped_spec(started_spec(v, app, key), key) == stopped_spec(v, key),
        stopped_spec(started_spec(v, app, key), key).current is None,
        !stopped_spec(started_spec(v, app, key), key).active.dom().contains(key),
{
    assert(v.active.insert(key, app).remove(key) =~= v.active.remove(key));
}

/// A PS5 that drops its connection while its stream is current leaves an empty
/// record, so that a new publish starts from nothing.
pub proof fn law_ps5_drop_clears(v: RtmpTrackerV, flash_ver: Seq<char>)
    requires
        has_ps5_prefix(flash_ver),
        v.current is Some,
    ensures
        disconnected_spec(v, flash_ver).current is None,
        disconnected_spec(v, flash_ver).active == Map::<Seq<char>, Seq<char>>::empty(),
{
}

} // verus!
