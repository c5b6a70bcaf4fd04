//! The order in which a tick applies its operations to the live bodies.
//!
//! For each body in turn the host accumulates its gravity against the tick's
//! snapshot and finds its collision partners; the steps below then resolve
//! each pair and integrate. The body is integrated once more after its
//! collisions, so a body that collided is integrated twice. A body held by the
//! cursor is pulled toward the cursor, integrated, damped and integrated again.
use vstd::prelude::*;

verus! {

#[derive(Clone, Copy, Debug, PartialEq, Eq, Structural)]
pub enum Action {
    /// Exchange velocities of the pair along its contact normal, separate it
    /// by correction rounds, and assign both new velocities.
    Resolve { body: usize, other: usize },
    /// Advance one body by the tick's time step.
    Integrate { body: usize },
    /// Set the spring force toward the cursor on the held body.
    Pull { body: usize },
    /// Divide the held body's velocity by the damping factor.
    Damp { body: usize },
}

/// The steps for the collisions of `body` with `partners`, in order.
pub fn collision_steps(body: usize, partners: &Vec<usize>) -> (r: Vec<Action>)
    requires
        3 * partners.len() + 1 <= usize::MAX,
    ensures
        r.len() == 3 * partners.len() + 1,
        forall|k: int|
            0 <= k < partners.len() ==> {
                &&& #[trigger] r@[3 * k] == (Action::Resolve { body, other: partners@[k] })
                &&& r@[3 * k + 1] == (Action::Integrate { body })
                &&& r@[3 * k + 2] == (Action::Integrate { body: partners@[k] })
            },
        r@[3 * partners.len()] == (Action::Integrate { body }),
{
    let mut r: Vec<Action> = Vec::new();
    let mut i: usize = 0;
    while i < partners.len()
        invariant
            i <= partners.len(),
            3 * partners.len() + 1 <= usize::MAX,
            r.len() == 3 * i,
            forall|k: int|
                0 <= k < i ==> {
                    &&& #[trigger] r@[3 * k] == (Action::Resolve { body, other: partners@[k] })
                    &&& r@[3 * k + 1] == (Action::Integrate { body })
                    &&& r@[3 * k + 2] == (Action::Integrate { body: partners@[k] })
                },
        decreases partners.len() - i,
    {
        let other = partners[i];
        r.push(Action::Resolve { body, other });
        r.push(Action::Integrate { body });
        r.push(Action::Integrate { body: other });
        proof {
            assert forall|k: int| 0 <= k < i + 1 implies {
                &&& #[trigger] r@[3 * k] == (Action::Resolve { body, other: partners@[k] })
                &&& r@[3 * k + 1] == (Action::Integrate { body })
                &&& r@[3 * k + 2] == (Action::Integrate { body: partners@[k] })
            } by {
                if k == i {
                    assert(3 * k + 1 == 3 * i + 1);
                }
            }
        }
        i = i + 1;
    }
    r.push(Action::Integrate { body });
    r
}

/// The steps for the body held by the cursor, if any.
pub fn cursor_steps(held: Option<usize>) -> (r: Vec<Action>)
    ensures
        held is None ==> r@ == Seq::<Action>::empty(),
        held matches Some(body) ==> r@ == seq![
            Action::Pull { body },
            Action::Integrate { body },
            Action::Damp { body },
            Action::Integrate { body },
        ],
{
    match held {
        Some(body) => {
            let r = vec![
                Action::Pull { body },
                Action::Integrate { body },
                Action::Damp { body },
                Action::Integrate { body },
            ];
            assert(r@ =~= seq![
                Action::Pull { body },
                Action::Integrate { body },
                Action::Damp { body },
                Action::Integrate { body },
            ]);
            r
        },
        None => {
            let r: Vec<Action> = Vec::new();
            assert(r@ =~= Seq::<Action>::empty());
            r
        },
    }
}

} // verus!
