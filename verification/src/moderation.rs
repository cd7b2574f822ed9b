//! Pin rotation: the rule that keeps one post of a community pinned, the one
//! before the newest.

use vstd::prelude::*;

verus! {

/// A post that was made for a video in a community.
#[derive(Clone, Debug, PartialEq, Eq)]
pub struct Submission {
    /// The identifier that the destination gave the post.
    pub id: String,
    /// The video that the post links to.
    pub video_id: String,
    /// The account that made the post.
    pub account_id: i64,
    /// The community that holds the post.
    pub subreddit_id: i64,
    /// When the post was made, in seconds since the Unix epoch.
    pub created: i64,
    /// Whether the post is pinned.
    pub pinned: bool,
}

/// The mathematical value of a [`Submission`].
pub struct SubmissionView {
    pub id: Seq<char>,
    pub video_id: Seq<char>,
    pub account_id: i64,
    pub subreddit_id: i64,
    pub created: i64,
    pub pinned: bool,
}

impl View for Submission {
    type V = SubmissionView;

    open spec fn view(&self) -> SubmissionView {
        SubmissionView {
            id: self.id@,
            video_id: self.video_id@,
            account_id: self.account_id,
            subreddit_id: self.subreddit_id,
            created: self.created,
            pinned: self.pinned,
        }
    }
}

impl DeepView for Submission {
    type V = SubmissionView;

    open spec fn deep_view(&self) -> SubmissionView {
        self@
    }
}

/// The pinned flags of a community's posts, oldest post first.
pub open spec fn pins(posts: Seq<SubmissionView>) -> Seq<bool> {
    Seq::new(posts.len(), |i: int| posts[i].pinned)
}

/// The position of the first pinned post; the number of posts where none is pinned.
pub open spec fn first_pinned(flags: Seq<bool>) -> int
    decreases flags.len(),
{
    if flags.len() == 0 || flags[0] {
        0
    } else {
        1 + first_pinned(flags.drop_first())
    }
}

/// The position of the last post before `end` that is not pinned; `-1` where there is none.
pub open spec fn last_unpinned_before(flags: Seq<bool>, end: int) -> int
    decreases end,
{
    if end <= 0 {
        -1
    } else if !flags[end - 1] {
        end - 1
    } else {
        last_unpinned_before(flags, end - 1)
    }
}

/// The position of the second-newest post among those that are not pinned;
/// `-1` where fewer than two are not pinned.
pub open spec fn second_last_unpinned(flags: Seq<bool>) -> int {
    last_unpinned_before(flags, last_unpinned_before(flags, flags.len() as int))
}

/// Two positions: the post that loses its pin and the post that gets it.
#[derive(Clone, Copy, Debug, PartialEq, Eq, Structural)]
pub struct PinSwap {
    pub unpin: usize,
    pub pin: usize,
}

/// The swap that the rotation asks for: the first pinned post gives its pin
/// to the second-newest post that is not pinned. There is none where no post
/// is pinned or fewer than two are not.
pub open spec fn swap_of(flags: Seq<bool>) -> Option<(int, int)> {
    let p = first_pinned(flags);
    let q = second_last_unpinned(flags);
    if p < flags.len() && q >= 0 {
        Some((p, q))
    } else {
        None
    }
}

/// The flags after a swap.
pub open spec fn swapped(flags: Seq<bool>, swap: (int, int)) -> Seq<bool> {
    flags.update(swap.0, false).update(swap.1, true)
}

/// The flags after one rotation.
pub open spec fn rotated(flags: Seq<bool>) -> Seq<bool> {
    match swap_of(flags) {
        Some(swap) => swapped(flags, swap),
        None => flags,
    }
}

/// The posts after a swap: nothing but the two pinned flags changes.
pub open spec fn repinned(posts: Seq<SubmissionView>, swap: (int, int)) -> Seq<SubmissionView> {
    let cleared = posts.update(swap.0, SubmissionView { pinned: false, ..posts[swap.0] });
    cleared.update(swap.1, SubmissionView { pinned: true, ..cleared[swap.1] })
}

/// The first pinned post is pinned, and no post before it is.

pub proof fn lemma_first_pinned(flags: Seq<bool>)
    ensures
        0 <= first_pinned(flags) <= flags.len(),
        forall|i: int| 0 <= i < first_pinned(flags) ==> !#[trigger] flags[i],
        first_pinned(flags) < flags.len() ==> flags[first_pinned(flags)],
    decreases flags.len(),
{
    if flags.len() > 0 && !flags[0] {
        let rest = flags.drop_first();
        lemma_first_pinned(rest);
        assert forall|i: int| 0 <= i < first_pinned(flags) implies !#[trigger] flags[i] by {
            if i > 0 {
                assert(flags[i] == rest[i - 1]);
            }
        }
        if first_pinned(flags) < flags.len() {
            assert(flags[first_pinned(flags)] == rest[first_pinned(rest)]);
        }
    }
}

/// The last post before `end` that is not pinned is not pinned, and every
/// post between it and `end` is.

pub proof fn lemma_last_unpinned_before(flags: Seq<bool>, end: int)
    requires
        end <= flags.len(),
    ensures
        -1 <= last_unpinned_before(flags, end),
        last_unpinned_before(flags, end) < end || end < 0,
        forall|i: int| last_unpinned_before(flags, end) < i < end && 0 <= i ==> #[trigger] flags[i],
        last_unpinned_before(flags, end) >= 0 ==> !flags[last_unpinned_before(flags, end)],
    decreases end,
{
    if end > 0 && flags[end - 1] {
        lemma_last_unpinned_before(flags, end - 1);
    }
}

/// The swap of a rotation names two different posts of the community: one
/// that is pinned and one that is not.
pub proof fn lemma_swap_of(flags: Seq<bool>)
    ensures
        swap_of(flags) matches Some(swap) ==> {
            &&& 0 <= swap.0 < flags.len()
            &&& 0 <= swap.1 < flags.len()
            &&& flags[swap.0]
            &&& !flags[swap.1]
            &&& swap.0 != swap.1
        },
{
    lemma_first_pinned(flags);
    lemma_last_unpinned_before(flags, flags.len() as int);
    let last = last_unpinned_before(flags, flags.len() as int);
    if last >= 0 {
        lemma_last_unpinned_before(flags, last);
    }
}

/// Finds the swap that the rotation asks for among a community's posts,
/// given oldest first.
pub fn rotation(posts: &Vec<Submission>) -> (r: Option<PinSwap>)
    ensures
        r is Some == swap_of(pins(posts.deep_view())) is Some,
        r matches Some(s) ==> swap_of(pins(posts.deep_view())) == Some((s.unpin as int, s.pin as int)),
        r matches Some(s) ==> s.unpin < posts.len() && s.pin < posts.len() && s.unpin != s.pin,
{
    let ghost flags = pins(posts.deep_view());
    proof {
        lemma_swap_of(flags);
    }
    let mut p: usize = 0;
    while p < posts.len() && !posts[p].pinned
        invariant
            p <= posts.len(),
            flags == pins(posts.deep_view()),
            forall|i: int| 0 <= i < p ==> !#[trigger] flags[i],
        decreases posts.len() - p,
    {
        p += 1;
    }
    proof {
        lemma_first_pinned(flags);
        let fp = first_pinned(flags);
        if fp < p {
            assert(!flags[fp]);
        } else if p < fp {
            assert(!flags[p as int]);
        }
    }
    if p >= posts.len() {
        return None;
    }
    let mut seen: usize = 0;
    let mut end: usize = posts.len();
    while end > 0
        invariant
            end <= posts.len(),
            seen <= 1,
            flags == pins(posts.deep_view()),
            seen == 0 ==> last_unpinned_before(flags, flags.len() as int) == last_unpinned_before(
                flags,
                end as int,
            ),
            seen == 1 ==> {
                &&& last_unpinned_before(flags, flags.len() as int) >= 0
                &&& second_last_unpinned(flags) == last_unpinned_before(flags, end as int)
            },
            p < posts.len(),
            p == first_pinned(flags),
            flags[p as int],
        decreases end,
    {
        end -= 1;
        if !posts[end].pinned {
            assert(!flags[end as int]);
            if seen == 1 {
                return Some(PinSwap { unpin: p, pin: end });
            }
            seen = 1;
        }
    }
    None
}

/// Carries a swap out on the posts: the one loses its pin, the other gets
/// it. A swap that names a post that is not there changes nothing.
pub fn apply_swap(posts: &mut Vec<Submission>, swap: PinSwap)
    ensures
        final(posts).deep_view() == if swap.unpin < old(posts).len() && swap.pin < old(
            posts,
        ).len() {
            repinned(old(posts).deep_view(), (swap.unpin as int, swap.pin as int))
        } else {
            old(posts).deep_view()
        },
{
    if swap.unpin < posts.len() && swap.pin < posts.len() {
        posts[swap.unpin].pinned = false;
        posts[swap.pin].pinned = true;
        assert(posts.deep_view() =~= repinned(
            old(posts).deep_view(),
            (swap.unpin as int, swap.pin as int),
        ));
    }
}

/// Rotates the pin among a community's posts, given oldest first: finds the
/// swap that the rotation asks for and carries it out.
pub fn rotate(posts: &mut Vec<Submission>) -> (r: Option<PinSwap>)
    ensures
        pins(final(posts).deep_view()) == rotated(pins(old(posts).deep_view())),
        r is Some == swap_of(pins(old(posts).deep_view())) is Some,
        r matches Some(s) ==> {
            &&& swap_of(pins(old(posts).deep_view())) == Some((s.unpin as int, s.pin as int))
            &&& final(posts).deep_view() == repinned(
                old(posts).deep_view(),
                (s.unpin as int, s.pin as int),
            )
        },
        r is None ==> final(posts).deep_view() == old(posts).deep_view(),
{
    let swap = rotation(posts);
    if let Some(s) = swap {
        proof {
            lemma_repinned_pins(posts.deep_view(), (s.unpin as int, s.pin as int));
        }
        apply_swap(posts, s);
    }
    swap
}

/// A swap changes the pinned flags of the posts exactly as it changes flags.
pub proof fn lemma_repinned_pins(posts: Seq<SubmissionView>, swap: (int, int))
    requires
        0 <= swap.0 < posts.len(),
        0 <= swap.1 < posts.len(),
    ensures
        pins(repinned(posts, swap)) == swapped(pins(posts), swap),
{
    assert(pins(repinned(posts, swap)) =~= swapped(pins(posts), swap));
}

/// Carrying out the same swap a second time changes nothing: the two changes
/// of state that make up a rotation are idempotent.
pub proof fn law_swap_replay_changes_nothing(flags: Seq<bool>, swap: (int, int))
    requires
        0 <= swap.0 < flags.len(),
        0 <= swap.1 < flags.len(),
        swap.0 != swap.1,
    ensures
        swapped(swapped(flags, swap), swap) == swapped(flags, swap),
{
    assert(swapped(swapped(flags, swap), swap) =~= swapped(flags, swap));
}

/// A rotation computed twice from the same posts asks for the same swap, and
/// carrying both out leaves the flags that one rotation leaves.
pub proof fn law_rotation_replay_changes_nothing(flags: Seq<bool>)
    ensures
        swap_of(flags) matches Some(swap) ==> swapped(rotated(flags), swap) == rotated(flags),
        swap_of(flags) is None ==> rotated(flags) == flags && rotated(rotated(flags)) == flags,
{
    lemma_swap_of(flags);
    if let Some(swap) = swap_of(flags) {
        law_swap_replay_changes_nothing(flags, swap);
    }
}

/// At most one post is pinned.
pub open spec fn at_most_one_pinned(flags: Seq<bool>) -> bool {
    forall|i: int, j: int|
        0 <= i < flags.len() && 0 <= j < flags.len() && #[trigger] flags[i] && #[trigger] flags[j]
            ==> i == j
}

/// Exactly the post at position `p` is pinned.
pub open spec fn only_pinned_at(flags: Seq<bool>, p: int) -> bool {
    &&& 0 <= p < flags.len()
    &&& forall|i: int| 0 <= i < flags.len() ==> (#[trigger] flags[i] <==> i == p)
}

/// A rotation never leaves more than one post pinned where at most one was
/// pinned before.
pub proof fn law_rotation_keeps_one_pin(flags: Seq<bool>)
    requires
        at_most_one_pinned(flags),
    ensures
        at_most_one_pinned(rotated(flags)),
        rotated(flags).len() == flags.len(),
{
    lemma_swap_of(flags);
    if let Some(swap) = swap_of(flags) {
        let after = swapped(flags, swap);
        assert forall|i: int, j: int|
            0 <= i < after.len() && 0 <= j < after.len() && #[trigger] after[i]
                && #[trigger] after[j] implies i == j by {
            if i != swap.1 {
                assert(flags[i]);
                assert(flags[swap.0]);
            }
            if j != swap.1 {
                assert(flags[j]);
                assert(flags[swap.0]);
            }
        }
    }
}

/// Where one post is pinned and it is older than the two newest posts, a
/// rotation moves the pin to the second-newest post.
pub proof fn law_rotation_pins_second_newest(flags: Seq<bool>, p: int)
    requires
        only_pinned_at(flags, p),
        p < flags.len() - 2,
    ensures
        swap_of(flags) == Some((p, flags.len() - 2)),
        only_pinned_at(rotated(flags), flags.len() - 2),
{
    let n = flags.len() as int;
    lemma_first_pinned(flags);
    let fp = first_pinned(flags);
    if fp < p {
        assert(!flags[fp]);
    } else if p < fp {
        assert(flags[p]);
    }
    assert(!flags[n - 1]);
    assert(!flags[n - 2]);
    assert(last_unpinned_before(flags, n) == n - 1);
    assert(last_unpinned_before(flags, n - 1) == n - 2);
    let after = swapped(flags, (p, n - 2));
    assert forall|i: int| 0 <= i < after.len() implies (#[trigger] after[i] <==> i == n - 2) by {
        if i != p && i != n - 2 {
            assert(after[i] == flags[i]);
        }
    }
}

} // verus!
