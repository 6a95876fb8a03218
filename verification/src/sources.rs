use vstd::prelude::*;

verus! {

/// The message with which `connect` refuses a source that is not streaming.
pub open spec fn inactive_message() -> Seq<char> {
    "this source isn't active"@
}

/// A video source: an RTSP url that a media pipeline pulls from, and the track
/// that pipeline feeds. `track` and `pipe` are handles that the library carries
/// but never looks into.
pub struct Source<T, P> {
    /// Whether the source still streams.
    pub state: bool,
    /// The RTSP url it was added with.
    pub url: String,
    /// The track that viewers are given.
    pub track: T,
    /// The pipeline that feeds the track.
    pub pipe: P,
}

/// The source as it is after `stop`: not streaming, all else kept.
pub open spec fn stopped<T, P>(s: Source<T, P>) -> Source<T, P> {
    Source { state: false, ..s }
}

/// The source that `Sources::add` appends.
pub open spec fn fresh_source<T, P>(url: String, track: T, pipe: P) -> Source<T, P> {
    Source { state: true, url, track, pipe }
}

impl<T, P> Source<T, P> {
    /// Hands out the track of a streaming source; a stopped one is refused.
    pub fn connect(&self) -> (res: Result<&T, &'static str>)
        ensures
            self.state ==> (res matches Ok(t) && *t == self.track),
            !self.state ==> (res matches Err(m) && m@ == inactive_message()),
    {
        if self.state {
            Ok(&self.track)
        } else {
            Err("this source isn't active")
        }
    }

    /// Marks the source as no longer streaming; the pipeline itself is ended by
    /// whoever holds it.
    pub fn stop(&mut self)
        ensures
            *final(self) == stopped(*old(self)),
    {
        self.state = false;
    }
}

/// All sources, each known by its position, which never changes.
pub struct Sources<T, P> {
    pub list: Vec<Source<T, P>>,
}

impl<T, P> View for Sources<T, P> {
    type V = Seq<Source<T, P>>;

    open spec fn view(&self) -> Seq<Source<T, P>> {
        self.list@
    }
}

/// The list after the source at `i` was stopped.
pub open spec fn stop_at<T, P>(list: Seq<Source<T, P>>, i: int) -> Seq<Source<T, P>> {
    list.update(i, stopped(list[i]))
}

impl<T, P> Sources<T, P> {
    /// No sources.
    pub fn new() -> (res: Self)
        ensures
            res@ == Seq::<Source<T, P>>::empty(),
    {
        Sources { list: Vec::with_capacity(5) }
    }

    /// The position that the next added source will get.
    pub fn next_id(&self) -> (res: usize)
        ensures
            res == self@.len(),
    {
        self.list.len()
    }

    /// Appends a streaming source for `url`; the sources before it keep their positions.
    pub fn add(&mut self, url: String, track: T, pipe: P)
        ensures
            final(self)@ == old(self)@.push(fresh_source(url, track, pipe)),
            final(self)@ == apply_step(old(self)@, SourcesStep::Add(fresh_source(url, track, pipe))),
    {
        self.list.push(Source { state: true, url, track, pipe });
    }
}

/// One change to the sources: a source added at the end, or the source at a
/// position stopped (a position past the end changes nothing).
pub enum SourcesStep<T, P> {
    Add(Source<T, P>),
    Stop(usize),
}

/// The sources after one change.
pub open spec fn apply_step<T, P>(list: Seq<Source<T, P>>, step: SourcesStep<T, P>) -> Seq<Source<T, P>> {
    match step {
        SourcesStep::Add(s) => list.push(s),
        SourcesStep::Stop(i) => if i < list.len() {
            stop_at(list, i as int)
        } else {
            list
        },
    }
}

/// The sources after a sequence of changes, in order.
pub open spec fn apply_steps<T, P>(list: Seq<Source<T, P>>, steps: Seq<SourcesStep<T, P>>) -> Seq<Source<T, P>>
    decreases steps.len(),
{
    if steps.len() == 0 {
        list
    } else {
        apply_steps(apply_step(list, steps[0]), steps.drop_first())
    }
}

/// What the listing shows of one source.
pub struct SourceView {
    pub state: bool,
    pub url: String,
}

/// Whether a listing entry shows the given source.
pub open spec fn shows<T, P>(v: SourceView, s: Source<T, P>) -> bool {
    v.state == s.state && v.url@ == s.url@
}

/// Whether a listing shows the given sources, one entry each, in order.
pub open spec fn lists<T, P>(views: Seq<SourceView>, list: Seq<Source<T, P>>) -> bool {
    &&& views.len() == list.len()
    &&& forall|i: int| 0 <= i < list.len() ==> #[trigger] shows(views[i], list[i])
}

impl SourceView {
    /// The listing entry of a source.
    pub fn new<T, P>(source: &Source<T, P>) -> (res: Self)
        ensures
            shows(res, *source),
            res.state == source.state,
            res.url@ == source.url@,
    {
        SourceView { state: source.state, url: source.url.clone() }
    }
}

/// The listing of all sources.
pub struct SourcesView {
    pub list: Vec<SourceView>,
}

impl SourcesView {
    /// The listing of the given sources, in their order.
    pub fn new<T, P>(sources: &Sources<T, P>) -> (res: Self)
        ensures
            lists(res.list@, sources@),
            res.list@.len() == sources@.len(),
            forall|i: int| 0 <= i < sources@.len() ==> (#[trigger] res.list@[i]).state == sources@[i].state
                && res.list@[i].url@ == sources@[i].url@,
    {
        let mut list_view: Vec<SourceView> = Vec::with_capacity(sources.list.len());
        let mut i: usize = 0;
        while i < sources.list.len()
            invariant
                i <= sources@.len(),
                lists(list_view@, sources@.take(i as int)),
            decreases sources@.len() - i,
        {
            list_view.push(SourceView::new(&sources.list[i]));
            i = i + 1;
        }
        assert(sources@.take(i as int) =~= sources@);
        proof {
            assert forall|j: int| 0 <= j < sources@.len() implies (#[trigger] list_view@[j]).state == sources@[j].state
                && list_view@[j].url@ == sources@[j].url@ by {
                assert(shows(list_view@[j], sources@[j]));
            }
        }
        SourcesView { list: list_view }
    }
}

/// A listing entry carries exactly the streaming state and the url of its
/// source, whatever the url.
pub proof fn listing_entry_carries_state_and_url<T, P>(v: SourceView, s: Source<T, P>)
    requires
        shows(v, s),
    ensures
        v.state == s.state,
        v.url@ == s.url@,
{
}

/// A listing has one entry per source, and entry `i` streams exactly when
/// source `i` streams and carries its url.
pub proof fn listing_follows_each_source<T, P>(views: Seq<SourceView>, list: Seq<Source<T, P>>)
    requires
        lists(views, list),
    ensures
        views.len() == list.len(),
        forall|i: int| 0 <= i < list.len() ==> (#[trigger] views[i]).state == list[i].state
            && views[i].url@ == list[i].url@,
{
    assert forall|i: int| 0 <= i < list.len() implies (#[trigger] views[i]).state == list[i].state
        && views[i].url@ == list[i].url@ by {
        assert(shows(views[i], list[i]));
    }
}

/// After a source is added, any listing shows it last, as streaming, under the
/// url it was added with.
pub proof fn added_source_is_listed_streaming<T, P>(
    views: Seq<SourceView>,
    list: Seq<Source<T, P>>,
    url: String,
    track: T,
    pipe: P,
)
    requires
        lists(views, list.push(fresh_source(url, track, pipe))),
    ensures
        views.len() == list.len() + 1,
        views[list.len() as int].state,
        views[list.len() as int].url@ == url@,
{
    listing_follows_each_source(views, list.push(fresh_source(url, track, pipe)));
    assert(list.push(fresh_source(url, track, pipe))[list.len() as int] == fresh_source(url, track, pipe));
}

/// Stopping a source twice leaves the sources as stopping it once does.
pub proof fn stop_is_idempotent<T, P>(list: Seq<Source<T, P>>, i: int)
    requires
        0 <= i < list.len(),
    ensures
        stop_at(stop_at(list, i), i) == stop_at(list, i),
{
    assert(stop_at(stop_at(list, i), i) =~= stop_at(list, i));
}

/// Stopping a source ends its streaming and touches no other source: the others
/// keep their place, state, url, track and pipeline.
pub proof fn stop_touches_only_its_source<T, P>(list: Seq<Source<T, P>>, i: int)
    requires
        0 <= i < list.len(),
    ensures
        stop_at(list, i).len() == list.len(),
        !stop_at(list, i)[i].state,
        stop_at(list, i)[i].url == list[i].url,
        stop_at(list, i)[i].track == list[i].track,
        stop_at(list, i)[i].pipe == list[i].pipe,
        forall|j: int| 0 <= j < list.len() && j != i ==> #[trigger] stop_at(list, i)[j] == list[j],
{
}

/// An added source gets the next position and streams; the sources before it
/// keep their positions and contents.
pub proof fn add_keeps_positions<T, P>(list: Seq<Source<T, P>>, url: String, track: T, pipe: P)
    ensures
        list.push(fresh_source(url, track, pipe)).len() == list.len() + 1,
        list.push(fresh_source(url, track, pipe))[list.len() as int].state,
        list.push(fresh_source(url, track, pipe))[list.len() as int].url == url,
        forall|j: int| 0 <= j < list.len() ==> #[trigger] list.push(fresh_source(url, track, pipe))[j] == list[j],
{
}

/// A source that was just added can be stopped, and it then no longer streams,
/// while every source before it is as it was.
pub proof fn add_then_stop<T, P>(list: Seq<Source<T, P>>, url: String, track: T, pipe: P)
    ensures
        ({
            let added = list.push(fresh_source(url, track, pipe));
            let after = stop_at(added, list.len() as int);
            &&& added[list.len() as int].state
            &&& !after[list.len() as int].state
            &&& after[list.len() as int].url == url
            &&& forall|j: int| 0 <= j < list.len() ==> #[trigger] after[j] == list[j]
        }),
{
}

/// The listing follows the sources: adding a source appends its entry, and
/// stopping one marks its entry as not streaming.
pub proof fn listing_follows_sources<T, P>(
    views: Seq<SourceView>,
    list: Seq<Source<T, P>>,
    entry: SourceView,
    added: Source<T, P>,
    i: int,
)
    requires
        lists(views, list),
        shows(entry, added),
        0 <= i < list.len(),
    ensures
        lists(views.push(entry), list.push(added)),
        lists(views.update(i, SourceView { state: false, url: views[i].url }), stop_at(list, i)),
{
    let pushed = views.push(entry);
    let lp = list.push(added);
    assert forall|j: int| 0 <= j < lp.len() implies #[trigger] shows(pushed[j], lp[j]) by {
        if j < list.len() {
            assert(shows(views[j], list[j]));
        }
    }
    let updated = views.update(i, SourceView { state: false, url: views[i].url });
    let ls = stop_at(list, i);
    assert(shows(views[i], list[i]));
    assert forall|j: int| 0 <= j < ls.len() implies #[trigger] shows(updated[j], ls[j]) by {
        assert(shows(views[j], list[j]));
    }
}

/// Over any run of additions and stops, every source keeps its position: the
/// list never shrinks, each source keeps its url, track and pipeline, and it
/// streams afterwards only if it streamed before (a stopped source is never
/// restarted).
pub proof fn sources_keep_their_positions<T, P>(list: Seq<Source<T, P>>, steps: Seq<SourcesStep<T, P>>)
    ensures
        apply_steps(list, steps).len() >= list.len(),
        forall|i: int| 0 <= i < list.len() ==> {
            let after = #[trigger] apply_steps(list, steps)[i];
            &&& after.url == list[i].url
            &&& after.track == list[i].track
            &&& after.pipe == list[i].pipe
            &&& (after.state ==> list[i].state)
        },
    decreases steps.len(),
{
    if steps.len() > 0 {
        let next = apply_step(list, steps[0]);
        sources_keep_their_positions(next, steps.drop_first());
        assert forall|i: int| 0 <= i < list.len() implies {
            let after = #[trigger] apply_steps(list, steps)[i];
            &&& after.url == list[i].url
            &&& after.track == list[i].track
            &&& after.pipe == list[i].pipe
            &&& (after.state ==> list[i].state)
        } by {
            assert(next[i].url == list[i].url && next[i].track == list[i].track
                && next[i].pipe == list[i].pipe && (next[i].state ==> list[i].state));
            assert(apply_steps(list, steps) == apply_steps(next, steps.drop_first()));
            let a = apply_steps(next, steps.drop_first())[i];
            assert(a.url == next[i].url);
        }
    }
}

/// Once stopped, a source stays stopped for good: whatever sources are added or
/// stopped afterwards, it keeps its position, does not stream, and keeps its url,
/// track and pipeline.
pub proof fn stopped_source_stays_stopped<T, P>(list: Seq<Source<T, P>>, k: int, steps: Seq<SourcesStep<T, P>>)
    requires
        0 <= k < list.len(),
        !list[k].state,
    ensures
        apply_steps(list, steps).len() >= list.len(),
        !apply_steps(list, steps)[k].state,
        apply_steps(list, steps)[k].url == list[k].url,
        apply_steps(list, steps)[k].track == list[k].track,
        apply_steps(list, steps)[k].pipe == list[k].pipe,
    decreases steps.len(),
{
    if steps.len() > 0 {
        let next = apply_step(list, steps[0]);
        assert(next.len() >= list.len());
        assert(!next[k].state && next[k].url == list[k].url && next[k].track == list[k].track
            && next[k].pipe == list[k].pipe);
        stopped_source_stays_stopped(next, k, steps.drop_first());
    }
}

/// After the source at `k` was stopped (whether it streamed until then or not),
/// every later listing, after any further additions and stops, shows it at
/// position `k` as not streaming, with the url it had when it was stopped.
pub proof fn stopped_source_listed_as_stopped<T, P>(
    list: Seq<Source<T, P>>,
    k: int,
    steps: Seq<SourcesStep<T, P>>,
    views: Seq<SourceView>,
)
    requires
        0 <= k < list.len(),
        lists(views, apply_steps(stop_at(list, k), steps)),
    ensures
        k < views.len(),
        !views[k].state,
        views[k].url@ == list[k].url@,
{
    stopped_source_stays_stopped(stop_at(list, k), k, steps);
    assert(shows(views[k], apply_steps(stop_at(list, k), steps)[k]));
}

} // verus!
