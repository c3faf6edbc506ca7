//! Choosing the monitor the recording indicator appears on.
//!
//! The application asks the X server (RandR) for the pointer position and
//! the monitors; the indicator goes on the monitor under the pointer, or
//! else on the primary monitor, or else on the first one.

use vstd::prelude::*;

verus! {

/// A monitor as RandR describes it.
pub struct MonitorInfo {
    pub x: i16,
    pub y: i16,
    pub width: u16,
    pub height: u16,
    pub primary: bool,
}

/// Physical pixel geometry of a monitor.
pub struct MonitorRect {
    pub x: i32,
    pub y: i32,
    pub width: u32,
    pub height: u32,
}

/// The point lies on the monitor (its right and bottom edges excluded).
pub open spec fn contains_point(m: MonitorInfo, cx: int, cy: int) -> bool {
    m.x <= cx && cx < m.x + m.width && m.y <= cy && cy < m.y + m.height
}

/// Which monitor is chosen, by index: the first under the pointer; when the
/// pointer is on none, the first primary one; when none is primary, the first.
pub open spec fn chosen_monitor(ms: Seq<MonitorInfo>, cx: int, cy: int, i: int) -> bool {
    &&& 0 <= i < ms.len()
    &&& {
        ||| contains_point(ms[i], cx, cy) && forall|j: int|
            0 <= j < i ==> !contains_point(#[trigger] ms[j], cx, cy)
        ||| (forall|j: int| 0 <= j < ms.len() ==> !contains_point(#[trigger] ms[j], cx, cy))
            && ms[i].primary && forall|j: int| 0 <= j < i ==> !(#[trigger] ms[j]).primary
        ||| (forall|j: int|
            0 <= j < ms.len() ==> !contains_point(#[trigger] ms[j], cx, cy) && !ms[j].primary)
            && i == 0
    }
}

/// The index of the monitor to use, or `None` when there is no monitor.
pub fn select_monitor_index(monitors: &Vec<MonitorInfo>, cx: i32, cy: i32) -> (r: Option<usize>)
    ensures
        r is None <==> monitors@.len() == 0,
        r matches Some(i) ==> chosen_monitor(monitors@, cx as int, cy as int, i as int),
{
    let n = monitors.len();
    let mut i: usize = 0;
    while i < n
        invariant
            n == monitors@.len(),
            i <= n,
            forall|j: int| 0 <= j < i ==> !contains_point(#[trigger] monitors@[j], cx as int, cy as int),
        decreases n - i,
    {
        let m = &monitors[i];
        let (mx, my, mw, mh) = (m.x as i32, m.y as i32, m.width as i32, m.height as i32);
        if cx >= mx && cx < mx + mw && cy >= my && cy < my + mh {
            return Some(i);
        }
        i = i + 1;
    }
    let mut k: usize = 0;
    while k < n
        invariant
            n == monitors@.len(),
            k <= n,
            forall|j: int| 0 <= j < n ==> !contains_point(#[trigger] monitors@[j], cx as int, cy as int),
            forall|j: int| 0 <= j < k ==> !(#[trigger] monitors@[j]).primary,
        decreases n - k,
    {
        if monitors[k].primary {
            return Some(k);
        }
        k = k + 1;
    }
    if n > 0 {
        Some(0)
    } else {
        None
    }
}

/// The geometry of a monitor.
pub open spec fn rect_of(m: MonitorInfo) -> MonitorRect {
    MonitorRect { x: m.x as i32, y: m.y as i32, width: m.width as u32, height: m.height as u32 }
}

/// The geometry of the monitor to use, given the pointer position and the
/// monitors; `None` when there is no monitor.
pub fn select_monitor(monitors: &Vec<MonitorInfo>, cx: i32, cy: i32) -> (r: Option<MonitorRect>)
    ensures
        r is None <==> monitors@.len() == 0,
        r matches Some(rect) ==> exists|i: int|
            chosen_monitor(monitors@, cx as int, cy as int, i) && rect == rect_of(
                #[trigger] monitors@[i],
            ),
{
    match select_monitor_index(monitors, cx, cy) {
        None => None,
        Some(i) => {
            let m = &monitors[i];
            let rect = MonitorRect {
                x: m.x as i32,
                y: m.y as i32,
                width: m.width as u32,
                height: m.height as u32,
            };
            assert(rect == rect_of(monitors@[i as int]));
            Some(rect)
        },
    }
}

/// The choice is the monitor under the pointer whenever there is one.
pub proof fn lemma_pointer_monitor_wins(ms: Seq<MonitorInfo>, cx: int, cy: int, i: int, k: int)
    requires
        chosen_monitor(ms, cx, cy, i),
        0 <= k < ms.len(),
        contains_point(ms[k], cx, cy),
    ensures
        contains_point(ms[i], cx, cy),
        i <= k,
{
}

/// The chosen monitor holds the pointer in both coordinates whenever some
/// monitor does, and it is the first such monitor; when none holds it, the
/// first primary monitor is chosen, or else the first monitor.
pub proof fn lemma_chosen_monitor_holds_pointer(ms: Seq<MonitorInfo>, cx: int, cy: int, i: int)
    requires
        chosen_monitor(ms, cx, cy, i),
    ensures
        0 <= i < ms.len(),
        forall|k: int|
            0 <= k < ms.len() && (#[trigger] ms[k]).x <= cx && cx < ms[k].x + ms[k].width && ms[k].y
                <= cy && cy < ms[k].y + ms[k].height ==> {
                &&& ms[i].x <= cx && cx < ms[i].x + ms[i].width
                &&& ms[i].y <= cy && cy < ms[i].y + ms[i].height
                &&& i <= k
            },
        (forall|k: int|
            0 <= k < ms.len() ==> !((#[trigger] ms[k]).x <= cx && cx < ms[k].x + ms[k].width
                && ms[k].y <= cy && cy < ms[k].y + ms[k].height)) ==> {
            ||| ms[i].primary && forall|k: int| 0 <= k < i ==> !(#[trigger] ms[k]).primary
            ||| i == 0 && forall|k: int| 0 <= k < ms.len() ==> !(#[trigger] ms[k]).primary
        },
{
    assert forall|k: int|
        0 <= k < ms.len() && (#[trigger] ms[k]).x <= cx && cx < ms[k].x + ms[k].width && ms[k].y
            <= cy && cy < ms[k].y + ms[k].height implies {
        &&& ms[i].x <= cx && cx < ms[i].x + ms[i].width
        &&& ms[i].y <= cy && cy < ms[i].y + ms[i].height
        &&& i <= k
    } by {
        assert(contains_point(ms[k], cx, cy));
    }
}

} // verus!
