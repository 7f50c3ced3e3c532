//! Laws of opening windows and the clipboard.
use vstd::prelude::*;
use crate::atoms::{atom_name_list, Atoms};
use crate::context::{ContextView, ManagerHandoverState};
use crate::error::ErrorView;
use crate::open::OpenContextView;
use crate::protocol::ReplyView;
use crate::window::{OpenWindowView, XContext};

verus! {

/// The opening of a window after several replies.
pub open spec fn run_window(window: OpenWindowView, replies: Seq<ReplyView>) -> OpenWindowView
    decreases replies.len(),
{
    if replies.len() == 0 {
        window
    } else {
        run_window(window, replies.drop_last()).next(replies.last())
    }
}

/// The opening of the clipboard after several replies.
pub open spec fn run_opening(opening: OpenContextView, replies: Seq<ReplyView>) -> OpenContextView
    decreases replies.len(),
{
    if replies.len() == 0 {
        opening
    } else {
        run_opening(opening, replies.drop_last()).next(replies.last())
    }
}

/// The replies that a window is opened with, when everything goes as it should.
pub open spec fn smooth_opening(screen: usize, roots: Seq<u32>, win_id: u32) -> Seq<ReplyView> {
    seq![
        ReplyView::Connected { screen, roots },
        ReplyView::Id(win_id),
        ReplyView::Done,
        ReplyView::Done,
    ]
}

/// A window is opened below the root of the preferred screen, under the id that
/// was given for it.
pub proof fn window_is_opened(screen: usize, roots: Seq<u32>, win_id: u32)
    requires
        screen < roots.len(),
    ensures
        run_window(OpenWindowView::Connecting, smooth_opening(screen, roots, win_id).take(1))
            == (OpenWindowView::Naming { root: roots[screen as int] }),
        run_window(OpenWindowView::Connecting, smooth_opening(screen, roots, win_id).take(2))
            == (OpenWindowView::Creating { root: roots[screen as int], win_id }),
        run_window(OpenWindowView::Connecting, smooth_opening(screen, roots, win_id).take(3))
            == (OpenWindowView::Flushing { win_id }),
        run_window(OpenWindowView::Connecting, smooth_opening(screen, roots, win_id))
            == OpenWindowView::Opened(Ok::<XContext, ErrorView>(XContext { win_id })),
{
    let replies = smooth_opening(screen, roots, win_id);
    assert(replies.take(4) == replies);
    assert(replies.take(0) == Seq::<ReplyView>::empty());
    assert forall|k: int| 0 < k <= 4 implies run_window(
        OpenWindowView::Connecting,
        #[trigger] replies.take(k),
    ) == run_window(OpenWindowView::Connecting, replies.take(k - 1)).next(replies[k - 1]) by {
        assert(replies.take(k).drop_last() == replies.take(k - 1));
    }
    assert(run_window(OpenWindowView::Connecting, replies.take(1)) == OpenWindowView::Naming {
        root: roots[screen as int],
    });
    assert(run_window(OpenWindowView::Connecting, replies.take(2)) == OpenWindowView::Creating {
        root: roots[screen as int],
        win_id,
    });
    assert(run_window(OpenWindowView::Connecting, replies.take(3)) == OpenWindowView::Flushing {
        win_id,
    });
}

/// Without the preferred screen there is no window.
pub proof fn missing_screen_is_an_error(screen: usize, roots: Seq<u32>)
    requires
        screen >= roots.len(),
    ensures
        OpenWindowView::Connecting.next(ReplyView::Connected { screen, roots })
            == OpenWindowView::Opened(
            Err::<XContext, ErrorView>(ErrorView::Unknown { description: "no screen found"@ }),
        ),
{
}

/// The clipboard is opened with a window of its own and the atoms that the
/// server gave for their names.
pub proof fn clipboard_is_opened(screen: usize, roots: Seq<u32>, win_id: u32, ids: Seq<u32>)
    requires
        screen < roots.len(),
        ids.len() == atom_name_list().len(),
    ensures
        run_opening(
            OpenContextView::start(),
            smooth_opening(screen, roots, win_id).push(ReplyView::Interned(ids)),
        ) == OpenContextView::Opened(
            Ok::<ContextView, ErrorView>(
                ContextView::fresh(XContext { win_id }, Atoms::of_ids(ids)),
            ),
        ),
{
    let replies = smooth_opening(screen, roots, win_id);
    window_is_opened(screen, roots, win_id);
    assert(replies.take(4) == replies);
    assert(replies.take(0) == Seq::<ReplyView>::empty());
    let start = OpenContextView::start();
    assert forall|k: int| 0 < k <= 4 implies run_opening(start, #[trigger] replies.take(k))
        == run_opening(start, replies.take(k - 1)).next(replies[k - 1]) by {
        assert(replies.take(k).drop_last() == replies.take(k - 1));
    }
    assert forall|k: int| 0 < k <= 4 implies run_window(
        OpenWindowView::Connecting,
        #[trigger] replies.take(k),
    ) == run_window(OpenWindowView::Connecting, replies.take(k - 1)).next(replies[k - 1]) by {
        assert(replies.take(k).drop_last() == replies.take(k - 1));
    }
    assert(run_opening(start, replies.take(1)) == OpenContextView::Opening(
        run_window(OpenWindowView::Connecting, replies.take(1)),
    ));
    assert(run_opening(start, replies.take(2)) == OpenContextView::Opening(
        run_window(OpenWindowView::Connecting, replies.take(2)),
    ));
    assert(run_opening(start, replies.take(3)) == OpenContextView::Opening(
        run_window(OpenWindowView::Connecting, replies.take(3)),
    ));
    assert(run_opening(start, replies.take(4)) == OpenContextView::Interning(
        XContext { win_id },
    ));
    assert(replies.push(ReplyView::Interned(ids)).drop_last() == replies);
}

/// However it is opened, a clipboard begins without data, with no handover under
/// way, and with its requests answered.
pub proof fn opened_clipboard_is_fresh(replies: Seq<ReplyView>)
    ensures
        run_opening(OpenContextView::start(), replies) matches OpenContextView::Opened(Ok(context))
            ==> {
            &&& context.data is None
            &&& context.handover_state == ManagerHandoverState::Idle
            &&& !context.serve_stopped
        },
    decreases replies.len(),
{
    if replies.len() > 0 {
        opened_clipboard_is_fresh(replies.drop_last());
    }
}

/// No two atoms have the same name.
pub proof fn names_are_distinct()
    ensures
        atom_name_list().no_duplicates(),
{
    reveal_strlit("CLIPBOARD");
    reveal_strlit("CLIPBOARD_MANAGER");
    reveal_strlit("SAVE_TARGETS");
    reveal_strlit("TARGETS");
    reveal_strlit("ATOM");
    reveal_strlit("INCR");
    reveal_strlit("UTF8_STRING");
    reveal_strlit("text/plain;charset=utf-8");
    reveal_strlit("text/plain;charset=UTF-8");
    reveal_strlit("STRING");
    reveal_strlit("TEXT");
    reveal_strlit("text/plain");
    reveal_strlit("image/png");
    reveal_strlit("ARBOARD_CLIPBOARD");
    let names = atom_name_list();
    // Names of one length differ in one of these places.
    assert forall|i: int, j: int|
        0 <= i < names.len() && 0 <= j < names.len() && i != j implies names[i] != names[j] by {
        assert(names[i].len() != names[j].len() || names[i][0] != names[j][0] || names[i][8]
            != names[j][8] || names[i][19] != names[j][19]);
    }
}

} // verus!
