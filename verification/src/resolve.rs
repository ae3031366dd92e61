//! The space resolver: match a path segment against a sibling list by
//! sanitized name, classify what one upstream fetch came to, and walk a
//! multi-segment path one fetch at a time, stopping at the first failure.
use vstd::prelude::*;

use crate::sanitize::{push_char, sanitize_seq, sanitize_string};
use vstd::string::StrSliceExecFns;
use crate::spaces::{children_view, ChildView, ContainedSpace, GenericSpace, SpaceView};
use crate::upstream::{parse_space, space_of_json, RespView, UpstreamResponse};

verus! {

/// A candidate matches a target segment when its name is non-empty and both
/// sanitize to the same key.
pub open spec fn is_name_match(target: Seq<char>, candidate: ChildView) -> bool {
    candidate.name.len() > 0 && sanitize_seq(candidate.name) == sanitize_seq(target)
}

/// The id recorded by a first-match scan of the candidates: the id of the
/// first candidate whose name matches the target, or the empty sequence when
/// none does. A first match that itself carries an empty id is
/// indistinguishable from no match, as the scan stops there either way.
pub open spec fn search_spec(target: Seq<char>, candidates: Seq<ChildView>) -> Seq<char>
    decreases candidates.len(),
{
    if candidates.len() == 0 {
        Seq::empty()
    } else if is_name_match(target, candidates[0]) {
        candidates[0].id
    } else {
        search_spec(target, candidates.drop_first())
    }
}

/// The outcome of matching one segment name against a sibling list: the id
/// to dereference next, or the unmatched segment. `UpstreamError` is never
/// produced by the scan itself; it is part of the shared outcome vocabulary.
#[derive(Debug, PartialEq, Eq)]
pub enum SearchResult {
    Found(String),
    NotFound(String),
    UpstreamError(String),
}

/// Scan the candidates in order for the first one whose sanitized name
/// equals the sanitized target. No match, or a first match with an empty id,
/// is `NotFound` carrying the target name; a match is `Found` carrying the
/// candidate's id.
pub fn search_contained_spaces(name: &str, contained_spaces: &Vec<ContainedSpace>) -> (r:
    SearchResult)
    ensures
        ({
            let id = search_spec(name@, children_view(contained_spaces@));
            match r {
                SearchResult::Found(found) => found@ == id && id.len() > 0,
                SearchResult::NotFound(missing) => id.len() == 0 && missing@ == name@,
                SearchResult::UpstreamError(_) => false,
            }
        }),
{
    let ghost cv = children_view(contained_spaces@);
    proof {
        assert(cv.skip(0) =~= cv);
    }
    let target = sanitize_string(name);
    let n: usize = contained_spaces.len();
    let mut i: usize = 0;
    while i < n
        invariant
            i <= n,
            n == contained_spaces.len(),
            cv == children_view(contained_spaces@),
            target@ == sanitize_seq(name@),
            search_spec(name@, cv) == search_spec(name@, cv.skip(i as int)),
        decreases n - i,
    {
        let candidate = &contained_spaces[i];
        proof {
            assert(cv.skip(i as int)[0] == candidate@);
        }
        if !candidate.name.as_str().is_empty() && sanitize_string(candidate.name.as_str())
            == target {
            if candidate.id.as_str().is_empty() {
                return SearchResult::NotFound(name.to_owned());
            } else {
                return SearchResult::Found(candidate.id.clone());
            }
        }
        proof {
            assert(cv.skip(i as int).drop_first() =~= cv.skip(i + 1));
        }
        i = i + 1;
    }
    proof {
        assert(cv.skip(n as int) =~= Seq::<ChildView>::empty());
    }
    SearchResult::NotFound(name.to_owned())
}

/// The terminal value of a resolution: the fetched node, an unmatched
/// segment name, an upstream failure message, or an upstream body that did
/// not denote a node.
#[derive(Debug, PartialEq, Eq)]
pub enum ResolutionResult {
    Found(GenericSpace),
    NotFound(String),
    UpstreamError(String),
    MalformedData,
}

/// Mathematical image of a `ResolutionResult`.
pub ghost enum ResolutionView {
    Found(SpaceView),
    NotFound(Seq<char>),
    UpstreamError(Seq<char>),
    MalformedData,
}

impl View for ResolutionResult {
    type V = ResolutionView;

    open spec fn view(&self) -> ResolutionView {
        match self {
            ResolutionResult::Found(g) => ResolutionView::Found(g@),
            ResolutionResult::NotFound(n) => ResolutionView::NotFound(n@),
            ResolutionResult::UpstreamError(m) => ResolutionView::UpstreamError(m@),
            ResolutionResult::MalformedData => ResolutionView::MalformedData,
        }
    }
}

impl Clone for ResolutionResult {
    /// A copy of a resolution outcome, with the same mathematical image.
    fn clone(&self) -> (r: Self)
        ensures
            r@ == self@,
    {
        match self {
            ResolutionResult::Found(g) => ResolutionResult::Found(g.clone()),
            ResolutionResult::NotFound(n) => ResolutionResult::NotFound(n.clone()),
            ResolutionResult::UpstreamError(m) => ResolutionResult::UpstreamError(m.clone()),
            ResolutionResult::MalformedData => ResolutionResult::MalformedData,
        }
    }
}

/// The generic message surfaced when the upstream service answered with a
/// non-success status; upstream internals are not leaked.
pub open spec fn upstream_error_text() -> Seq<char> {
    "Fenix had an error"@
}

/// What one dereferencing fetch came to: a success body either denotes a
/// node or is malformed; a non-success status is the generic upstream
/// failure; a missing or unreadable response is an upstream failure carrying
/// the transport message.
pub open spec fn fetch_result_spec(r: RespView) -> ResolutionView {
    match r {
        RespView::Body { status, body } => if status == 200 {
            match space_of_json(body) {
                Some(g) => ResolutionView::Found(g),
                None => ResolutionView::MalformedData,
            }
        } else {
            ResolutionView::UpstreamError(upstream_error_text())
        },
        RespView::ReadFailed { status, error } => if status == 200 {
            ResolutionView::UpstreamError(error)
        } else {
            ResolutionView::UpstreamError(upstream_error_text())
        },
        RespView::Transport(m) => ResolutionView::UpstreamError(m),
    }
}

/// Classify one dereferencing fetch into a resolution outcome.
pub fn classify_fetch(response: &UpstreamResponse) -> (r: ResolutionResult)
    ensures
        r@ == fetch_result_spec(response@),
{
    match response {
        UpstreamResponse::Body { status, body } => {
            if *status == 200 {
                match parse_space(body.as_str()) {
                    Some(g) => ResolutionResult::Found(g),
                    None => ResolutionResult::MalformedData,
                }
            } else {
                ResolutionResult::UpstreamError("Fenix had an error".to_owned())
            }
        },
        UpstreamResponse::ReadFailed { status, error } => {
            if *status == 200 {
                ResolutionResult::UpstreamError(error.clone())
            } else {
                ResolutionResult::UpstreamError("Fenix had an error".to_owned())
            }
        },
        UpstreamResponse::Transport(m) => ResolutionResult::UpstreamError(m.clone()),
    }
}

/// The segments of a path text split on `/`. Splitting never yields an
/// empty list: an empty text is one empty segment, and every separator ends
/// one segment and begins another.
pub open spec fn split_spec(s: Seq<char>) -> Seq<Seq<char>>
    decreases s.len(),
{
    if s.len() == 0 {
        seq![Seq::<char>::empty()]
    } else if s[0] == '/' {
        seq![Seq::<char>::empty()] + split_spec(s.drop_first())
    } else {
        let rest = split_spec(s.drop_first());
        seq![seq![s[0]] + rest[0]] + rest.drop_first()
    }
}

/// Splitting yields at least one segment.
pub proof fn lemma_split_len(s: Seq<char>)
    ensures
        split_spec(s).len() >= 1,
    decreases s.len(),
{
    if s.len() > 0 {
        lemma_split_len(s.drop_first());
    }
}

/// Extending the text by one character extends the split: a separator ends
/// the last segment and opens a fresh empty one; any other character lands
/// at the end of the last segment.
pub proof fn lemma_split_push(s: Seq<char>, c: char)
    ensures
        c == '/' ==> split_spec(s.push(c)) == split_spec(s).push(Seq::<char>::empty()),
        c != '/' ==> split_spec(s.push(c)) == split_spec(s).update(
            split_spec(s).len() - 1,
            split_spec(s).last().push(c),
        ),
    decreases s.len(),
{
    lemma_split_len(s);
    if s.len() == 0 {
        assert(s.push(c).len() == 1);
        assert(s.push(c)[0] == c);
        assert(s.push(c).drop_first() =~= Seq::<char>::empty());
        assert(split_spec(Seq::<char>::empty()) == seq![Seq::<char>::empty()]);
        assert(s =~= Seq::<char>::empty());
        if c == '/' {
            assert(split_spec(s.push(c)) =~~= split_spec(s).push(Seq::<char>::empty()));
        } else {
            assert(split_spec(s.push(c)) =~~= split_spec(s).update(
                split_spec(s).len() - 1,
                split_spec(s).last().push(c),
            ));
        }
    } else {
        lemma_split_len(s.drop_first());
        lemma_split_push(s.drop_first(), c);
        assert(s.push(c)[0] == s[0]);
        assert(s.push(c).drop_first() =~= s.drop_first().push(c));
        if c == '/' {
            assert(split_spec(s.push(c)) =~~= split_spec(s).push(Seq::<char>::empty()));
        } else {
            assert(split_spec(s.push(c)) =~~= split_spec(s).update(
                split_spec(s).len() - 1,
                split_spec(s).last().push(c),
            ));
        }
    }
}

/// Split a path text into its segment names on `/`, as the path route hands
/// them in.
pub fn split_path(path: &str) -> (r: Vec<String>)
    ensures
        r.deep_view() == split_spec(path@),
{
    let n: usize = path.unicode_len();
    let mut done: Vec<String> = Vec::new();
    let mut cur = String::new();
    let mut i: usize = 0;
    while i < n
        invariant
            i <= n,
            n == path@.len(),
            done.deep_view().push(cur@) == split_spec(path@.take(i as int)),
        decreases n - i,
    {
        let c = path.get_char(i);
        proof {
            lemma_split_push(path@.take(i as int), path@[i as int]);
            lemma_split_len(path@.take(i as int));
            assert(path@.take(i + 1 as int) =~= path@.take(i as int).push(path@[i as int]));
        }
        if c == '/' {
            done.push(cur);
            cur = String::new();
            proof {
                assert(done.deep_view().push(cur@) =~~= split_spec(path@.take(i + 1 as int)));
            }
        } else {
            push_char(&mut cur, c);
            proof {
                assert(done.deep_view().push(cur@) =~~= split_spec(path@.take(i + 1 as int)));
            }
        }
        i = i + 1;
    }
    done.push(cur);
    proof {
        assert(path@.take(n as int) =~= path@);
        assert(done.deep_view() =~~= split_spec(path@));
    }
    done
}

/// What the resolver asks of its driver next: dereference this id and hand
/// the outcome back, or stop with the final result.
#[derive(Debug, PartialEq, Eq)]
pub enum ResolveAction {
    Fetch(String),
    Done(ResolutionResult),
}

/// Mathematical image of a `ResolveAction`.
pub ghost enum ActionView {
    Fetch(Seq<char>),
    Done(ResolutionView),
}

impl View for ResolveAction {
    type V = ActionView;

    open spec fn view(&self) -> ActionView {
        match self {
            ResolveAction::Fetch(id) => ActionView::Fetch(id@),
            ResolveAction::Done(r) => ActionView::Done(r@),
        }
    }
}

/// Walks a path of segment names down the space tree, one dereferencing
/// fetch per level. The resolver only decides; its driver performs each
/// fetch it asks for and hands the outcome back, so every decision is made
/// here whatever the network did.
pub struct PathResolver {
    segments: Vec<String>,
    next_index: usize,
    current: GenericSpace,
    terminal: Option<ResolutionResult>,
}

/// Mathematical image of a `PathResolver`: the segments asked for, how many
/// of them are already resolved, the node reached so far, and the failure
/// that ended the walk early, if one did.
#[verifier::ext_equal]
pub ghost struct ResolverView {
    pub segments: Seq<Seq<char>>,
    pub next_index: int,
    pub current: SpaceView,
    pub terminal: Option<ResolutionView>,
}

impl View for PathResolver {
    type V = ResolverView;

    closed spec fn view(&self) -> ResolverView {
        ResolverView {
            segments: self.segments.deep_view(),
            next_index: self.next_index as int,
            current: self.current@,
            terminal: match &self.terminal {
                Some(r) => Some(r@),
                None => None,
            },
        }
    }
}

impl ResolverView {
    /// The walk never runs past the end of the path.
    pub open spec fn wf(self) -> bool {
        0 <= self.next_index <= self.segments.len()
    }
}

/// The next thing a resolver in state `s` does. A finished or failed walk is
/// done with its result; the node reached at the end of the path is the
/// result; an unmatched segment ends the walk with `NotFound` and no fetch;
/// a matched segment asks for one fetch of the matched id.
pub open spec fn action_spec(s: ResolverView) -> ActionView {
    match s.terminal {
        Some(r) => ActionView::Done(r),
        None => if s.next_index == s.segments.len() {
            ActionView::Done(ResolutionView::Found(s.current))
        } else {
            let id = search_spec(s.segments[s.next_index], s.current.contained_spaces);
            if id.len() == 0 {
                ActionView::Done(ResolutionView::NotFound(s.segments[s.next_index]))
            } else {
                ActionView::Fetch(id)
            }
        },
    }
}

/// How a fetch outcome advances the walk: a node moves it one segment down
/// the path, anything else ends it with that failure.
pub open spec fn step_spec(s: ResolverView, r: RespView) -> ResolverView {
    match fetch_result_spec(r) {
        ResolutionView::Found(g) => ResolverView {
            next_index: s.next_index + 1,
            current: g,
            ..s
        },
        failure => ResolverView { terminal: Some(failure), ..s },
    }
}

impl PathResolver {
    /// Begin a walk of `segments` under a synthetic root node whose children
    /// are the pre-fetched top-level spaces.
    pub fn start(segments: Vec<String>, root_children: Vec<ContainedSpace>) -> (s: Self)
        ensures
            s@.wf(),
            s@.segments == segments.deep_view(),
            s@.next_index == 0,
            s@.current.name == Seq::<char>::empty(),
            s@.current.contained_spaces == children_view(root_children@),
            s@.current.capacity is None,
            s@.terminal is None,
    {
        PathResolver {
            segments,
            next_index: 0,
            current: GenericSpace {
                name: String::new(),
                contained_spaces: root_children,
                capacity: None,
            },
            terminal: None,
        }
    }

    /// Decide the next step of the walk.
    pub fn next_action(&self) -> (a: ResolveAction)
        requires
            self@.wf(),
        ensures
            a@ == action_spec(self@),
    {
        match &self.terminal {
            Some(r) => ResolveAction::Done(r.clone()),
            None => {
                if self.next_index == self.segments.len() {
                    ResolveAction::Done(ResolutionResult::Found(self.current.clone()))
                } else {
                    let segment = &self.segments[self.next_index];
                    match search_contained_spaces(segment.as_str(), &self.current.contained_spaces) {
                        SearchResult::Found(id) => ResolveAction::Fetch(id),
                        SearchResult::NotFound(missing) => ResolveAction::Done(
                            ResolutionResult::NotFound(missing),
                        ),
                        SearchResult::UpstreamError(m) => ResolveAction::Done(
                            ResolutionResult::UpstreamError(m),
                        ),
                    }
                }
            },
        }
    }

    /// Record what the fetch asked for by `next_action` came to.
    pub fn record_fetch(&mut self, response: &UpstreamResponse)
        requires
            old(self)@.wf(),
            action_spec(old(self)@) is Fetch,
        ensures
            final(self)@.wf(),
            final(self)@ == step_spec(old(self)@, response@),
    {
        let upper: usize = self.segments.len();
        proof {
            assert(self@.next_index < self@.segments.len());
            assert(self.next_index < upper);
        }
        match classify_fetch(response) {
            ResolutionResult::Found(g) => {
                self.current = g;
                self.next_index = self.next_index + 1;
            },
            failure => {
                self.terminal = Some(failure);
            },
        }
        proof {
            assert(self@ =~= step_spec(old(self)@, response@));
        }
    }
}

/// The chained resolution, stated recursively: a walk under `node` with no
/// segments left is that node; an unmatched first segment ends the walk with
/// `NotFound` at once, consuming no response; a matched one consumes one
/// response, and only a response that denotes a node lets the walk continue
/// under it — any failure is the walk's result, and everything after it is
/// never consulted. What a walk that ran out of responses comes to is left
/// unsaid; the driver performs one fetch per matched segment, so it cannot.
pub open spec fn resolve_path_spec(
    segments: Seq<Seq<char>>,
    node: SpaceView,
    responses: Seq<RespView>,
) -> ResolutionView
    decreases segments.len(),
{
    if segments.len() == 0 {
        ResolutionView::Found(node)
    } else {
        let id = search_spec(segments[0], node.contained_spaces);
        if id.len() == 0 {
            ResolutionView::NotFound(segments[0])
        } else if responses.len() == 0 {
            vstd::pervasive::arbitrary()
        } else {
            match fetch_result_spec(responses[0]) {
                ResolutionView::Found(g) => resolve_path_spec(
                    segments.drop_first(),
                    g,
                    responses.drop_first(),
                ),
                failure => failure,
            }
        }
    }
}

/// The images of the responses, in order.
pub open spec fn responses_view(responses: Seq<UpstreamResponse>) -> Seq<RespView> {
    responses.map_values(|r: UpstreamResponse| r@)
}

/// The synthetic root node a walk starts under: no name, no capacity, the
/// pre-fetched top-level children.
pub open spec fn root_wrapper_view(root_children: Seq<ContainedSpace>) -> SpaceView {
    SpaceView { name: Seq::empty(), contained_spaces: children_view(root_children), capacity: None }
}

/// What a resolver mid-walk still owes: its terminal failure if one ended
/// the walk, else the walk of the remaining segments under the node reached
/// so far.
pub open spec fn remaining_walk_spec(s: ResolverView, responses: Seq<RespView>) -> ResolutionView {
    match s.terminal {
        Some(r) => r,
        None => resolve_path_spec(s.segments.skip(s.next_index), s.current, responses),
    }
}

/// Walk a whole path against a recorded run of responses, one response per
/// matched segment. This replays the resolver to completion and shows that
/// its one-step decisions compose to the recursive chain `resolve_path_spec`:
/// the first unmatched segment or failed fetch is the result, and no later
/// segment or response is consulted.
pub fn resolve_path(
    segments: Vec<String>,
    root_children: Vec<ContainedSpace>,
    responses: &Vec<UpstreamResponse>,
) -> (r: ResolutionResult)
    requires
        responses@.len() >= segments@.len(),
    ensures
        r@ == resolve_path_spec(
            segments.deep_view(),
            root_wrapper_view(root_children@),
            responses_view(responses@),
        ),
{
    let ghost all_segments = segments.deep_view();
    let ghost all_responses = responses_view(responses@);
    let ghost root = root_wrapper_view(root_children@);
    let mut resolver = PathResolver::start(segments, root_children);
    let mut used: usize = 0;
    proof {
        assert(resolver@ =~= (ResolverView {
            segments: all_segments,
            next_index: 0,
            current: root,
            terminal: None,
        }));
        assert(all_segments.skip(0) =~= all_segments);
        assert(all_responses.skip(0) =~= all_responses);
    }
    loop
        invariant
            resolver@.wf(),
            resolver@.segments == all_segments,
            all_segments == segments.deep_view(),
            root == root_wrapper_view(root_children@),
            all_responses == responses_view(responses@),
            all_responses.len() >= all_segments.len(),
            resolver@.terminal is None ==> used == resolver@.next_index,
            resolver@.terminal is Some ==> used <= all_responses.len(),
            resolve_path_spec(all_segments, root, all_responses) == remaining_walk_spec(
                resolver@,
                all_responses.skip(used as int),
            ),
        decreases
            all_segments.len() - resolver@.next_index + (if resolver@.terminal is None {
                1int
            } else {
                0int
            }),
    {
        match resolver.next_action() {
            ResolveAction::Done(result) => {
                proof {
                    if resolver@.terminal is None {
                        if resolver@.next_index == all_segments.len() {
                            assert(all_segments.skip(resolver@.next_index).len() == 0);
                            assert(resolve_path_spec(
                                all_segments.skip(resolver@.next_index),
                                resolver@.current,
                                all_responses.skip(used as int),
                            ) == ResolutionView::Found(resolver@.current));
                        } else {
                            assert(all_segments.skip(resolver@.next_index)[0] == all_segments[resolver@.next_index]);
                        }
                    }
                }
                return result;
            },
            ResolveAction::Fetch(_) => {
                let cap: usize = responses.len();
                proof {
                    assert(resolver@.terminal is None);
                    assert(resolver@.next_index < all_segments.len());
                    assert(used < cap);
                    assert(all_segments.skip(resolver@.next_index)[0] == all_segments[resolver@.next_index]);
                    assert(all_responses.skip(used as int)[0] == all_responses[used as int]);
                    assert(all_responses.skip(used as int).drop_first() =~= all_responses.skip(
                        used + 1,
                    ));
                    assert(all_segments.skip(resolver@.next_index).drop_first() =~= all_segments.skip(
                        resolver@.next_index + 1,
                    ));
                    assert(all_responses[used as int] == responses@[used as int]@);
                }
                resolver.record_fetch(&responses[used]);
                used = used + 1;
            },
        }
    }
}

} // verus!
