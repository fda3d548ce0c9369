use crate::text::{contains_text, lowercase, str_contains, str_eq, to_lowercase};
use std::sync::Arc;
use vstd::prelude::*;

verus! {

/// What a mark in a recording stands for.
#[derive(Debug, Clone, Copy, PartialEq, Eq, Structural)]
pub enum DemoEventType {
    Bookmark,
    Killstreak,
}

/// A mark that the player has set in a recording.
#[derive(Debug, Clone)]
pub struct DemoEvent {
    pub name: DemoEventType,
    pub value: String,
    pub tick: u64,
}

/// What is known of a recording without reading it whole.
#[derive(Debug, Clone)]
pub struct Demo {
    pub name: String,
    pub path: String,
    pub birthtime: u64,
    pub filesize: u64,
    pub events: Vec<DemoEvent>,
    pub tags: Vec<String>,
    pub server_name: String,
    pub client_name: String,
    pub map_name: String,
    /// Bit pattern of the length of the recording in seconds.
    pub playback_time: u32,
    pub num_ticks: u32,
    pub is_stv: bool,
}

/// What the header of a recording tells.
#[derive(Debug)]
pub struct DemoHeader {
    pub server: String,
    pub nick: String,
    pub map: String,
    pub game: String,
    /// Bit pattern of the length of the recording in seconds.
    pub duration: u32,
    pub ticks: u32,
}

impl DemoHeader {
    /// Whether the recording is one of Team Fortress 2.
    pub fn is_tf2(&self) -> (tf2: bool)
        ensures
            tf2 == (self.game@ == "tf"@),
    {
        str_eq(self.game.as_str(), "tf")
    }
}

/// By what a list of recordings is put in order.
#[derive(Debug, Clone, Copy, PartialEq, Eq, Structural)]
pub enum SortKey {
    Name,
    FileSize,
    Birthtime,
    MapName,
    EventCount,
    PlaybackTime,
}

impl Default for SortKey {
    fn default() -> (key: SortKey)
        ensures
            key == SortKey::Name,
    {
        SortKey::Name
    }
}

/// One condition on the recordings of a list; the text is what to look for.
#[derive(Debug)]
pub enum Filter {
    DemoType(String),
    Event(String),
    FileName(String),
    FreeText(String),
    MapName(String),
    PlayerName(String),
    TagName(String),
}

/// What a [`Filter`] looks at.
#[derive(Debug, Clone, Copy, PartialEq, Eq, Structural)]
pub enum FilterKind {
    DemoType,
    Event,
    FileName,
    FreeText,
    MapName,
    PlayerName,
    TagName,
}

impl Filter {
    pub open spec fn kind(self) -> FilterKind {
        match self {
            Filter::DemoType(_) => FilterKind::DemoType,
            Filter::Event(_) => FilterKind::Event,
            Filter::FileName(_) => FilterKind::FileName,
            Filter::FreeText(_) => FilterKind::FreeText,
            Filter::MapName(_) => FilterKind::MapName,
            Filter::PlayerName(_) => FilterKind::PlayerName,
            Filter::TagName(_) => FilterKind::TagName,
        }
    }

    pub open spec fn text(self) -> Seq<char> {
        match self {
            Filter::DemoType(value) => value@,
            Filter::Event(value) => value@,
            Filter::FileName(value) => value@,
            Filter::FreeText(value) => value@,
            Filter::MapName(value) => value@,
            Filter::PlayerName(value) => value@,
            Filter::TagName(value) => value@,
        }
    }
}

/// The texts of a list of strings.
pub open spec fn texts(items: Seq<String>) -> Seq<Seq<char>> {
    items.map_values(|item: String| item@)
}

/// The texts of a list in lower case.
pub open spec fn lowercased(items: Seq<Seq<char>>) -> Seq<Seq<char>> {
    items.map_values(|item: Seq<char>| lowercase(item))
}

/// The values of the marks of a recording.
pub open spec fn event_values(events: Seq<DemoEvent>) -> Seq<Seq<char>> {
    events.map_values(|event: DemoEvent| event.value@)
}

/// What the filters of one kind look for: their texts in lower case, in the
/// order of the list.
pub open spec fn queries_of(filters: Seq<Filter>, kind: FilterKind) -> Seq<Seq<char>>
    decreases filters.len(),
{
    if filters.len() == 0 {
        Seq::empty()
    } else {
        let before = queries_of(filters.drop_last(), kind);
        if filters.last().kind() == kind {
            before.push(lowercase(filters.last().text()))
        } else {
            before
        }
    }
}

/// Some field holds some query.
pub open spec fn some_contains(fields: Seq<Seq<char>>, queries: Seq<Seq<char>>) -> bool {
    exists|q: int, f: int|
        0 <= q < queries.len() && 0 <= f < fields.len() && #[trigger] contains_text(
            fields[f],
            queries[q],
        )
}

/// The queries of one kind let a recording with these fields pass: there are
/// none, or one of them occurs in one of the fields.
pub open spec fn passes(queries: Seq<Seq<char>>, fields: Seq<Seq<char>>) -> bool {
    queries.len() == 0 || some_contains(fields, queries)
}

/// The conditions on the recordings of a list, sorted by what they look at.
#[derive(Debug)]
pub struct Filters {
    pub demo_type: Vec<String>,
    pub event: Vec<String>,
    pub file_name: Vec<String>,
    pub free_text: Vec<String>,
    pub map_name: Vec<String>,
    pub player_name: Vec<String>,
    pub tag_name: Vec<String>,
}

impl Demo {
    /// What is known of the recording `name` at `path`, from its header, the
    /// marks and tags kept beside it, and the time and size of its file. A
    /// recording whose header names no server was made by a spectator.
    pub fn new(
        name: String,
        path: String,
        header: DemoHeader,
        events: Vec<DemoEvent>,
        tags: Vec<String>,
        birthtime: u64,
        filesize: u64,
    ) -> (demo: Demo)
        ensures
            demo.name == name,
            demo.path == path,
            demo.birthtime == birthtime,
            demo.filesize == filesize,
            demo.events == events,
            demo.tags == tags,
            demo.server_name == header.server,
            demo.client_name == header.nick,
            demo.map_name == header.map,
            demo.playback_time == header.duration,
            demo.num_ticks == header.ticks,
            demo.is_stv == (header.server@.len() == 0),
    {
        let is_stv: bool = header.server.as_str().is_empty();
        Demo {
            name,
            path,
            birthtime,
            filesize,
            events,
            tags,
            server_name: header.server,
            client_name: header.nick,
            map_name: header.map,
            playback_time: header.duration,
            num_ticks: header.ticks,
            is_stv,
        }
    }

    /// How the kind of the recording is written: `stv` for one made by a
    /// spectator, `pov` for one made by a player.
    pub open spec fn type_text(self) -> Seq<char> {
        if self.is_stv {
            "stv"@
        } else {
            "pov"@
        }
    }

    /// The fields in which a free text is looked for: the names of the
    /// recording, server, player and map, the values of the marks, and the tags.
    pub open spec fn free_text_fields(self) -> Seq<Seq<char>> {
        seq![self.name@, self.server_name@, self.client_name@, self.map_name@] + event_values(
            self.events@,
        ) + texts(self.tags@)
    }
}

impl Filters {
    /// The filters hold what the list of conditions looks for.
    pub open spec fn holds(self, filters: Seq<Filter>) -> bool {
        &&& texts(self.demo_type@) == queries_of(filters, FilterKind::DemoType)
        &&& texts(self.event@) == queries_of(filters, FilterKind::Event)
        &&& texts(self.file_name@) == queries_of(filters, FilterKind::FileName)
        &&& texts(self.free_text@) == queries_of(filters, FilterKind::FreeText)
        &&& texts(self.map_name@) == queries_of(filters, FilterKind::MapName)
        &&& texts(self.player_name@) == queries_of(filters, FilterKind::PlayerName)
        &&& texts(self.tag_name@) == queries_of(filters, FilterKind::TagName)
    }

    /// Whether a recording meets the conditions. Letter case plays no part.
    pub open spec fn lets_pass(self, demo: Demo) -> bool {
        &&& passes(texts(self.demo_type@), seq![demo.type_text()])
        &&& passes(texts(self.event@), lowercased(event_values(demo.events@)))
        &&& passes(texts(self.file_name@), seq![lowercase(demo.name@)])
        &&& passes(texts(self.free_text@), lowercased(demo.free_text_fields()))
        &&& passes(texts(self.map_name@), seq![lowercase(demo.map_name@)])
        &&& passes(texts(self.player_name@), seq![lowercase(demo.client_name@)])
        &&& passes(texts(self.tag_name@), lowercased(texts(demo.tags@)))
    }

    pub fn new() -> (filters: Filters)
        ensures
            filters.holds(Seq::empty()),
    {
        let filters = Filters {
            demo_type: Vec::new(),
            event: Vec::new(),
            file_name: Vec::new(),
            free_text: Vec::new(),
            map_name: Vec::new(),
            player_name: Vec::new(),
            tag_name: Vec::new(),
        };
        assert(texts(filters.demo_type@) =~= Seq::empty());
        assert(texts(filters.event@) =~= Seq::empty());
        assert(texts(filters.file_name@) =~= Seq::empty());
        assert(texts(filters.free_text@) =~= Seq::empty());
        assert(texts(filters.map_name@) =~= Seq::empty());
        assert(texts(filters.player_name@) =~= Seq::empty());
        assert(texts(filters.tag_name@) =~= Seq::empty());
        filters
    }

    /// Sorts a list of conditions by what they look at, the texts in lower case.
    pub fn from_filter_list(filters: &[Filter]) -> (result: Filters)
        ensures
            result.holds(filters@),
    {
        let mut result = Filters::new();
        let mut i: usize = 0;
        assert(filters@.take(0) =~= Seq::empty());
        while i < filters.len()
            invariant
                i <= filters.len(),
                result.holds(filters@.take(i as int)),
            decreases filters.len() - i,
        {
            proof {
                assert(filters@.take(i + 1).drop_last() =~= filters@.take(i as int));
            }
            let ghost before = result;
            match &filters[i] {
                Filter::DemoType(value) => {
                    result.demo_type.push(to_lowercase(value.as_str()));
                    assert(texts(result.demo_type@) =~= texts(before.demo_type@).push(lowercase(value@)));
                },
                Filter::Event(value) => {
                    result.event.push(to_lowercase(value.as_str()));
                    assert(texts(result.event@) =~= texts(before.event@).push(lowercase(value@)));
                },
                Filter::FileName(value) => {
                    result.file_name.push(to_lowercase(value.as_str()));
                    assert(texts(result.file_name@) =~= texts(before.file_name@).push(lowercase(value@)));
                },
                Filter::FreeText(value) => {
                    result.free_text.push(to_lowercase(value.as_str()));
                    assert(texts(result.free_text@) =~= texts(before.free_text@).push(lowercase(value@)));
                },
                Filter::MapName(value) => {
                    result.map_name.push(to_lowercase(value.as_str()));
                    assert(texts(result.map_name@) =~= texts(before.map_name@).push(lowercase(value@)));
                },
                Filter::PlayerName(value) => {
                    result.player_name.push(to_lowercase(value.as_str()));
                    assert(texts(result.player_name@) =~= texts(before.player_name@).push(lowercase(value@)));
                },
                Filter::TagName(value) => {
                    result.tag_name.push(to_lowercase(value.as_str()));
                    assert(texts(result.tag_name@) =~= texts(before.tag_name@).push(lowercase(value@)));
                },
            }
            i = i + 1;
        }
        assert(filters@.take(i as int) =~= filters@);
        result
    }

    pub fn matches(&self, demo: &Demo) -> (pass: bool)
        ensures
            pass == self.lets_pass(*demo),
    {
        self.matches_type(demo) && self.matches_event(demo) && self.matches_name(demo)
            && self.matches_free_text(demo) && self.matches_map(demo) && self.matches_client(demo)
            && self.matches_tag(demo)
    }

    pub fn matches_type(&self, demo: &Demo) -> (pass: bool)
        ensures
            pass == passes(texts(self.demo_type@), seq![demo.type_text()]),
    {
        if self.demo_type.len() == 0 {
            return true;
        }
        let demo_type: &str = if demo.is_stv {
            "stv"
        } else {
            "pov"
        };
        let mut fields: Vec<String> = Vec::new();
        fields.push(demo_type.to_string());
        assert(texts(fields@) =~= seq![demo.type_text()]);
        any_contains(&fields, &self.demo_type)
    }

    pub fn matches_event(&self, demo: &Demo) -> (pass: bool)
        ensures
            pass == passes(texts(self.event@), lowercased(event_values(demo.events@))),
    {
        if self.event.len() == 0 {
            return true;
        }
        let mut events: Vec<String> = Vec::new();
        let mut i: usize = 0;
        while i < demo.events.len()
            invariant
                i <= demo.events.len(),
                events.len() == i,
                forall|j: int| 0 <= j < i ==> events@[j]@ == lowercase(demo.events@[j].value@),
            decreases demo.events.len() - i,
        {
            events.push(to_lowercase(demo.events[i].value.as_str()));
            i = i + 1;
        }
        assert(texts(events@) =~= lowercased(event_values(demo.events@)));
        any_contains(&events, &self.event)
    }

    pub fn matches_name(&self, demo: &Demo) -> (pass: bool)
        ensures
            pass == passes(texts(self.file_name@), seq![lowercase(demo.name@)]),
    {
        if self.file_name.len() == 0 {
            return true;
        }
        let mut fields: Vec<String> = Vec::new();
        fields.push(to_lowercase(demo.name.as_str()));
        assert(texts(fields@) =~= seq![lowercase(demo.name@)]);
        any_contains(&fields, &self.file_name)
    }

    pub fn matches_free_text(&self, demo: &Demo) -> (pass: bool)
        ensures
            pass == passes(texts(self.free_text@), lowercased(demo.free_text_fields())),
    {
        if self.free_text.len() == 0 {
            return true;
        }
        let mut fields: Vec<String> = Vec::new();
        fields.push(to_lowercase(demo.name.as_str()));
        fields.push(to_lowercase(demo.server_name.as_str()));
        fields.push(to_lowercase(demo.client_name.as_str()));
        fields.push(to_lowercase(demo.map_name.as_str()));
        let events: usize = demo.events.len();
        let mut i: usize = 0;
        while i < events
            invariant
                i <= events,
                events == demo.events.len(),
                fields.len() == 4 + i,
                fields@[0]@ == lowercase(demo.name@),
                fields@[1]@ == lowercase(demo.server_name@),
                fields@[2]@ == lowercase(demo.client_name@),
                fields@[3]@ == lowercase(demo.map_name@),
                forall|j: int| 0 <= j < i ==> fields@[4 + j]@ == lowercase(demo.events@[j].value@),
            decreases events - i,
        {
            fields.push(to_lowercase(demo.events[i].value.as_str()));
            i = i + 1;
        }
        let mut k: usize = 0;
        while k < demo.tags.len()
            invariant
                k <= demo.tags.len(),
                events == demo.events.len(),
                fields.len() == 4 + events + k,
                fields@[0]@ == lowercase(demo.name@),
                fields@[1]@ == lowercase(demo.server_name@),
                fields@[2]@ == lowercase(demo.client_name@),
                fields@[3]@ == lowercase(demo.map_name@),
                forall|j: int|
                    0 <= j < events ==> fields@[4 + j]@ == lowercase(demo.events@[j].value@),
                forall|j: int| 0 <= j < k ==> fields@[4 + events + j]@ == lowercase(demo.tags@[j]@),
            decreases demo.tags.len() - k,
        {
            fields.push(to_lowercase(demo.tags[k].as_str()));
            k = k + 1;
        }
        assert(texts(fields@) =~= lowercased(demo.free_text_fields()));
        any_contains(&fields, &self.free_text)
    }

    pub fn matches_map(&self, demo: &Demo) -> (pass: bool)
        ensures
            pass == passes(texts(self.map_name@), seq![lowercase(demo.map_name@)]),
    {
        if self.map_name.len() == 0 {
            return true;
        }
        let mut fields: Vec<String> = Vec::new();
        fields.push(to_lowercase(demo.map_name.as_str()));
        assert(texts(fields@) =~= seq![lowercase(demo.map_name@)]);
        any_contains(&fields, &self.map_name)
    }

    pub fn matches_client(&self, demo: &Demo) -> (pass: bool)
        ensures
            pass == passes(texts(self.player_name@), seq![lowercase(demo.client_name@)]),
    {
        if self.player_name.len() == 0 {
            return true;
        }
        let mut fields: Vec<String> = Vec::new();
        fields.push(to_lowercase(demo.client_name.as_str()));
        assert(texts(fields@) =~= seq![lowercase(demo.client_name@)]);
        any_contains(&fields, &self.player_name)
    }

    pub fn matches_tag(&self, demo: &Demo) -> (pass: bool)
        ensures
            pass == passes(texts(self.tag_name@), lowercased(texts(demo.tags@))),
    {
        if self.tag_name.len() == 0 {
            return true;
        }
        let mut tags: Vec<String> = Vec::new();
        let mut i: usize = 0;
        while i < demo.tags.len()
            invariant
                i <= demo.tags.len(),
                tags.len() == i,
                forall|j: int| 0 <= j < i ==> tags@[j]@ == lowercase(demo.tags@[j]@),
            decreases demo.tags.len() - i,
        {
            tags.push(to_lowercase(demo.tags[i].as_str()));
            i = i + 1;
        }
        assert(texts(tags@) =~= lowercased(texts(demo.tags@)));
        any_contains(&tags, &self.tag_name)
    }
}

/// Whether one of the fields holds one of the queries.
pub fn any_contains(fields: &Vec<String>, queries: &Vec<String>) -> (found: bool)
    ensures
        found == some_contains(texts(fields@), texts(queries@)),
{
    let mut q: usize = 0;
    while q < queries.len()
        invariant
            q <= queries.len(),
            forall|a: int, b: int|
                0 <= a < q && 0 <= b < fields.len() ==> !#[trigger] contains_text(
                    texts(fields@)[b],
                    texts(queries@)[a],
                ),
        decreases queries.len() - q,
    {
        let mut f: usize = 0;
        while f < fields.len()
            invariant
                f <= fields.len(),
                q < queries.len(),
                forall|a: int, b: int|
                    0 <= a < q && 0 <= b < fields.len() ==> !#[trigger] contains_text(
                        texts(fields@)[b],
                        texts(queries@)[a],
                    ),
                forall|b: int|
                    0 <= b < f ==> !#[trigger] contains_text(
                        texts(fields@)[b],
                        texts(queries@)[q as int],
                    ),
            decreases fields.len() - f,
        {
            if str_contains(fields[f].as_str(), queries[q].as_str()) {
                assert(contains_text(texts(fields@)[f as int], texts(queries@)[q as int]));
                return true;
            }
            f = f + 1;
        }
        q = q + 1;
    }
    false
}

/// Whether a recording meets a list of conditions. Letter case plays no
/// part. Conditions on the same thing are alternatives: one of them has to
/// be met; of the things looked at, each has to be in order.
pub open spec fn demo_passes(filters: Seq<Filter>, demo: Demo) -> bool {
    &&& passes(queries_of(filters, FilterKind::DemoType), seq![demo.type_text()])
    &&& passes(queries_of(filters, FilterKind::Event), lowercased(event_values(demo.events@)))
    &&& passes(queries_of(filters, FilterKind::FileName), seq![lowercase(demo.name@)])
    &&& passes(queries_of(filters, FilterKind::FreeText), lowercased(demo.free_text_fields()))
    &&& passes(queries_of(filters, FilterKind::MapName), seq![lowercase(demo.map_name@)])
    &&& passes(queries_of(filters, FilterKind::PlayerName), seq![lowercase(demo.client_name@)])
    &&& passes(queries_of(filters, FilterKind::TagName), lowercased(texts(demo.tags@)))
}

/// `Arc::clone` of the standard library: another handle on the same value.
#[verifier::external_body]
fn arc_clone(demo: &Arc<Demo>) -> (same: Arc<Demo>)
    ensures
        same == *demo,
{
    Arc::clone(demo)
}

/// The recordings of a list that meet the conditions, in the order of the list.
pub fn filter_demos(demos: &[Arc<Demo>], filters: &[Filter]) -> (kept: Vec<Arc<Demo>>)
    ensures
        kept@ == demos@.filter(|demo: Arc<Demo>| demo_passes(filters@, *demo)),
{
    let sorted = Filters::from_filter_list(filters);
    let ghost pred = |demo: Arc<Demo>| demo_passes(filters@, *demo);
    let mut kept: Vec<Arc<Demo>> = Vec::new();
    let mut i: usize = 0;
    assert(demos@.take(0).filter(pred) =~= Seq::empty());
    while i < demos.len()
        invariant
            i <= demos.len(),
            sorted.holds(filters@),
            kept@ == demos@.take(i as int).filter(pred),
            pred == (|demo: Arc<Demo>| demo_passes(filters@, *demo)),
        decreases demos.len() - i,
    {
        proof {
            assert(demos@.take(i + 1) =~= demos@.take(i as int).push(demos@[i as int]));
            Seq::lemma_filter_push(demos@.take(i as int), demos@[i as int], pred);
        }
        if sorted.matches(&demos[i]) {
            kept.push(arc_clone(&demos[i]));
        }
        i = i + 1;
    }
    assert(demos@.take(i as int) =~= demos@);
    kept
}

/// The list `seen` with `item` added at the end, unless it is in the list.
pub open spec fn with_distinct(seen: Seq<Seq<char>>, item: Seq<char>) -> Seq<Seq<char>> {
    if seen.contains(item) {
        seen
    } else {
        seen.push(item)
    }
}

/// The texts of a list without repetitions, each where it first occurs.
pub open spec fn distinct(items: Seq<Seq<char>>) -> Seq<Seq<char>> {
    items.fold_left(
        Seq::empty(),
        |seen: Seq<Seq<char>>, item: Seq<char>| with_distinct(seen, item),
    )
}

/// The names of the recordings.
pub open spec fn demo_names(demos: Seq<Arc<Demo>>) -> Seq<Seq<char>> {
    demos.map_values(|demo: Arc<Demo>| demo.name@)
}

/// The maps of the recordings.
pub open spec fn map_names(demos: Seq<Arc<Demo>>) -> Seq<Seq<char>> {
    demos.map_values(|demo: Arc<Demo>| demo.map_name@)
}

/// The players who made the recordings.
pub open spec fn client_names(demos: Seq<Arc<Demo>>) -> Seq<Seq<char>> {
    demos.map_values(|demo: Arc<Demo>| demo.client_name@)
}

/// The tags of all recordings, one recording after the other.
pub open spec fn all_tags(demos: Seq<Arc<Demo>>) -> Seq<Seq<char>>
    decreases demos.len(),
{
    if demos.len() == 0 {
        Seq::empty()
    } else {
        all_tags(demos.drop_last()) + texts(demos.last().tags@)
    }
}

/// The values of the marks of all recordings, one recording after the other.
pub open spec fn all_event_values(demos: Seq<Arc<Demo>>) -> Seq<Seq<char>>
    decreases demos.len(),
{
    if demos.len() == 0 {
        Seq::empty()
    } else {
        all_event_values(demos.drop_last()) + event_values(demos.last().events@)
    }
}

/// Adds a text to a list unless the list holds it.
pub fn push_distinct(seen: &mut Vec<String>, item: &str)
    ensures
        texts(final(seen)@) == with_distinct(texts(old(seen)@), item@),
{
    let mut i: usize = 0;
    while i < seen.len()
        invariant
            i <= seen.len(),
            seen@ == old(seen)@,
            forall|j: int| 0 <= j < i ==> texts(seen@)[j] != item@,
        decreases seen.len() - i,
    {
        if str_eq(seen[i].as_str(), item) {
            assert(texts(seen@)[i as int] == item@);
            return ;
        }
        i = i + 1;
    }
    seen.push(item.to_string());
    assert(texts(seen@) =~= texts(old(seen)@).push(item@));
}

/// The step of the fold that makes a list distinct.
proof fn lemma_distinct_step(items: Seq<Seq<char>>, done: int)
    requires
        0 <= done < items.len(),
    ensures
        distinct(items.take(done + 1)) == with_distinct(distinct(items.take(done)), items[done]),
{
    assert(items.take(done + 1).drop_last() =~= items.take(done));
}

/// The names of the recordings, each once, where it first occurs.
pub fn get_known_demo_names(demos: &Vec<Arc<Demo>>) -> (known: Vec<String>)
    ensures
        texts(known@) == distinct(demo_names(demos@)),
{
    let mut known: Vec<String> = Vec::new();
    let mut i: usize = 0;
    assert(texts(known@) =~= distinct(demo_names(demos@).take(0)));
    while i < demos.len()
        invariant
            i <= demos.len(),
            texts(known@) == distinct(demo_names(demos@).take(i as int)),
        decreases demos.len() - i,
    {
        proof {
            lemma_distinct_step(demo_names(demos@), i as int);
        }
        push_distinct(&mut known, demos[i].name.as_str());
        i = i + 1;
    }
    assert(demo_names(demos@).take(i as int) =~= demo_names(demos@));
    known
}

/// The maps of the recordings, each once, where it first occurs.
pub fn get_known_maps(demos: &Vec<Arc<Demo>>) -> (known: Vec<String>)
    ensures
        texts(known@) == distinct(map_names(demos@)),
{
    let mut known: Vec<String> = Vec::new();
    let mut i: usize = 0;
    assert(texts(known@) =~= distinct(map_names(demos@).take(0)));
    while i < demos.len()
        invariant
            i <= demos.len(),
            texts(known@) == distinct(map_names(demos@).take(i as int)),
        decreases demos.len() - i,
    {
        proof {
            lemma_distinct_step(map_names(demos@), i as int);
        }
        push_distinct(&mut known, demos[i].map_name.as_str());
        i = i + 1;
    }
    assert(map_names(demos@).take(i as int) =~= map_names(demos@));
    known
}

/// The players who made the recordings, each once, where they first occur.
pub fn get_known_players(demos: &Vec<Arc<Demo>>) -> (known: Vec<String>)
    ensures
        texts(known@) == distinct(client_names(demos@)),
{
    let mut known: Vec<String> = Vec::new();
    let mut i: usize = 0;
    assert(texts(known@) =~= distinct(client_names(demos@).take(0)));
    while i < demos.len()
        invariant
            i <= demos.len(),
            texts(known@) == distinct(client_names(demos@).take(i as int)),
        decreases demos.len() - i,
    {
        proof {
            lemma_distinct_step(client_names(demos@), i as int);
        }
        push_distinct(&mut known, demos[i].client_name.as_str());
        i = i + 1;
    }
    assert(client_names(demos@).take(i as int) =~= client_names(demos@));
    known
}

/// Making a list distinct goes on from where a shorter list has got.
proof fn lemma_distinct_append(head: Seq<Seq<char>>, rest: Seq<Seq<char>>, done: int)
    requires
        0 <= done < rest.len(),
    ensures
        distinct(head + rest.take(done + 1)) == with_distinct(
            distinct(head + rest.take(done)),
            rest[done],
        ),
{
    assert((head + rest.take(done + 1)).drop_last() =~= head + rest.take(done));
}

/// The tags of the recordings, each once, where it first occurs.
pub fn get_known_tags(demos: &Vec<Arc<Demo>>) -> (known: Vec<String>)
    ensures
        texts(known@) == distinct(all_tags(demos@)),
{
    let mut known: Vec<String> = Vec::new();
    let mut i: usize = 0;
    assert(texts(known@) =~= distinct(all_tags(demos@.take(0))));
    while i < demos.len()
        invariant
            i <= demos.len(),
            texts(known@) == distinct(all_tags(demos@.take(i as int))),
        decreases demos.len() - i,
    {
        let ghost head = all_tags(demos@.take(i as int));
        let tags: &Vec<String> = &demos[i].tags;
        let mut k: usize = 0;
        assert(head + texts(tags@).take(0) =~= head);
        while k < tags.len()
            invariant
                k <= tags.len(),
                texts(known@) == distinct(head + texts(tags@).take(k as int)),
            decreases tags.len() - k,
        {
            proof {
                lemma_distinct_append(head, texts(tags@), k as int);
            }
            push_distinct(&mut known, tags[k].as_str());
            k = k + 1;
        }
        proof {
            assert(texts(tags@).take(k as int) =~= texts(tags@));
            assert(demos@.take(i + 1).drop_last() =~= demos@.take(i as int));
        }
        i = i + 1;
    }
    assert(demos@.take(i as int) =~= demos@);
    known
}

/// The values of the marks of the recordings, each once, where it first occurs.
pub fn get_known_events(demos: &Vec<Arc<Demo>>) -> (known: Vec<String>)
    ensures
        texts(known@) == distinct(all_event_values(demos@)),
{
    let mut known: Vec<String> = Vec::new();
    let mut i: usize = 0;
    assert(texts(known@) =~= distinct(all_event_values(demos@.take(0))));
    while i < demos.len()
        invariant
            i <= demos.len(),
            texts(known@) == distinct(all_event_values(demos@.take(i as int))),
        decreases demos.len() - i,
    {
        let ghost head = all_event_values(demos@.take(i as int));
        let events: &Vec<DemoEvent> = &demos[i].events;
        let mut k: usize = 0;
        assert(head + event_values(events@).take(0) =~= head);
        while k < events.len()
            invariant
                k <= events.len(),
                texts(known@) == distinct(head + event_values(events@).take(k as int)),
            decreases events.len() - k,
        {
            proof {
                lemma_distinct_append(head, event_values(events@), k as int);
            }
            push_distinct(&mut known, events[k].value.as_str());
            k = k + 1;
        }
        proof {
            assert(event_values(events@).take(k as int) =~= event_values(events@));
            assert(demos@.take(i + 1).drop_last() =~= demos@.take(i as int));
        }
        i = i + 1;
    }
    assert(demos@.take(i as int) =~= demos@);
    known
}

} // verus!
