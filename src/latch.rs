//! The cursor latch: which body, if any, the pointer holds.
//!
//! On the press of the primary button the body nearest to the cursor is
//! chosen once; it stays held, whatever body is nearest later, until the
//! button is released. The nearest body is the first one with the smallest
//! distance key.
use vstd::prelude::*;

verus! {

#[derive(Clone, Copy, Debug, PartialEq, Eq, Structural)]
pub enum ClickLatch {
    Idle,
    Tracking { body: usize },
}

/// The latch after one tick, given the button state and the index of the
/// body nearest to the cursor (`None` when there are no bodies).
pub open spec fn next_latch(l: ClickLatch, button_down: bool, nearest: Option<usize>) -> ClickLatch {
    if !button_down {
        ClickLatch::Idle
    } else {
        match l {
            ClickLatch::Tracking { body } => ClickLatch::Tracking { body },
            ClickLatch::Idle => match nearest {
                Some(body) => ClickLatch::Tracking { body },
                None => ClickLatch::Idle,
            },
        }
    }
}

/// The body that the latch holds.
pub open spec fn held(l: ClickLatch) -> Option<usize> {
    match l {
        ClickLatch::Tracking { body } => Some(body),
        ClickLatch::Idle => None,
    }
}

impl ClickLatch {
    /// A latch that holds nothing.
    pub fn idle() -> (r: ClickLatch)
        ensures
            r == ClickLatch::Idle,
    {
        ClickLatch::Idle
    }

    /// Advances the latch by one tick.
    pub fn step(&self, button_down: bool, nearest: Option<usize>) -> (r: ClickLatch)
        ensures
            r == next_latch(*self, button_down, nearest),
    {
        if !button_down {
            ClickLatch::Idle
        } else {
            match self {
                ClickLatch::Tracking { body } => ClickLatch::Tracking { body: *body },
                ClickLatch::Idle => match nearest {
                    Some(body) => ClickLatch::Tracking { body },
                    None => ClickLatch::Idle,
                },
            }
        }
    }

    /// The index of the held body, if any.
    pub fn held_body(&self) -> (r: Option<usize>)
        ensures
            r == held(*self),
    {
        match self {
            ClickLatch::Tracking { body } => Some(*body),
            ClickLatch::Idle => None,
        }
    }
}

/// Whether index `k` holds the first smallest key of `keys`.
pub open spec fn is_first_minimum(keys: Seq<u32>, k: int) -> bool {
    &&& 0 <= k < keys.len()
    &&& forall|j: int| 0 <= j < keys.len() ==> keys[k] <= #[trigger] keys[j]
    &&& forall|j: int| 0 <= j < k ==> keys[k] < #[trigger] keys[j]
}

/// The body nearest to the cursor: the first index of the smallest key, where
/// `keys[j]` orders body `j` by its distance to the cursor. `None` when there
/// are no bodies.
pub fn nearest_body(keys: &Vec<u32>) -> (r: Option<usize>)
    ensures
        keys.len() == 0 <==> r is None,
        r matches Some(k) ==> is_first_minimum(keys@, k as int),
{
    if keys.len() == 0 {
        return None;
    }
    let mut best: usize = 0;
    let mut i: usize = 1;
    while i < keys.len()
        invariant
            1 <= i <= keys.len(),
            best < i,
            forall|j: int| 0 <= j < i ==> keys@[best as int] <= #[trigger] keys@[j],
            forall|j: int| 0 <= j < best ==> keys@[best as int] < #[trigger] keys@[j],
        decreases keys.len() - i,
    {
        if keys[i] < keys[best] {
            best = i;
        }
        i = i + 1;
    }
    Some(best)
}

/// At most one index holds the first smallest key, so the nearest body is
/// determined by the keys alone.
pub proof fn lemma_first_minimum_unique(keys: Seq<u32>, a: int, b: int)
    requires
        is_first_minimum(keys, a),
        is_first_minimum(keys, b),
    ensures
        a == b,
{
    if a < b {
        assert(keys[b] < keys[a]);
        assert(keys[a] <= keys[b]);
    } else if b < a {
        assert(keys[a] < keys[b]);
        assert(keys[b] <= keys[a]);
    }
}

/// Once a press has chosen a body, further ticks with the button held keep
/// that body, whatever body is nearest then; a release frees it.
pub proof fn lemma_latched_until_release(
    l: ClickLatch,
    first: Option<usize>,
    second: Option<usize>,
    third: Option<usize>,
)
    ensures
        ({
            let a = next_latch(l, true, first);
            let b = next_latch(a, true, second);
            held(a) is Some ==> {
                &&& held(b) == held(a)
                &&& next_latch(b, true, third) == b
                &&& next_latch(b, false, third) == ClickLatch::Idle
            }
        }),
        l == ClickLatch::Idle ==> held(next_latch(l, true, first)) == first,
{
}

} // verus!
