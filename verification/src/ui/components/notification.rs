//! Toast notifications: short messages that expire after a while, a few shown at once.
//!
//! Durations are counted in milliseconds.
use vstd::prelude::*;

use crate::text::copy_str;
use crate::ui::layout::{min_u16, sat_sub, Rect};
use vstd::utf8::encode_utf8;
use std::collections::VecDeque;

verus! {

/// The kind of a notification.
#[derive(Debug, Clone, Copy, PartialEq, Eq, Structural)]
pub enum NotificationType {
    /// Informational message.
    Info,
    /// Success message.
    Success,
    /// Warning message.
    Warning,
    /// Error message.
    Error,
}

/// The icon of a notification kind.
pub open spec fn notification_icon(t: NotificationType) -> Seq<char> {
    match t {
        NotificationType::Info => "ℹ"@,
        NotificationType::Success => "✓"@,
        NotificationType::Warning => "⚠"@,
        NotificationType::Error => "✗"@,
    }
}

impl NotificationType {
    /// Get the icon for this notification type.
    pub fn icon(&self) -> (s: &'static str)
        ensures
            s@ == notification_icon(*self),
    {
        match self {
            NotificationType::Info => "ℹ",
            NotificationType::Success => "✓",
            NotificationType::Warning => "⚠",
            NotificationType::Error => "✗",
        }
    }
}

/// The monotonic clock's instants, `std::time::Instant`, carried opaquely.
#[verifier::external_type_specification]
#[verifier::external_body]
pub struct ExInstant(std::time::Instant);

/// `Instant` is `Copy`; its `clone` returns the same instant.
pub assume_specification[ <std::time::Instant as Clone>::clone ](t: &std::time::Instant) -> (r: std::time::Instant)
    ensures
        r == *t,
;

/// Reads the monotonic clock: calls `std::time::Instant::now`. Nothing is claimed of
/// the instant returned.
#[verifier::external_body]
fn now() -> (t: std::time::Instant) {
    std::time::Instant::now()
}

/// Calls `std::time::Instant::elapsed` and takes the whole nanoseconds of the
/// duration (`Duration::as_nanos`). Nothing is claimed of the value: it depends on
/// the clock.
#[verifier::external_body]
fn elapsed_nanos(t: &std::time::Instant) -> (ns: u128) {
    t.elapsed().as_nanos()
}

/// The whole milliseconds in `ns` nanoseconds, saturating at `u64::MAX`.
fn whole_millis(ns: u128) -> (ms: u64)
    ensures
        ms == (if ns / 1_000_000 > u64::MAX { u64::MAX as int } else { (ns / 1_000_000) as int }),
{
    let e = ns / 1_000_000;
    if e > u64::MAX as u128 {
        u64::MAX
    } else {
        e as u64
    }
}

/// A notification message.
#[derive(Debug, Clone)]
pub struct Notification {
    /// The message to display.
    pub message: String,
    /// The kind of notification.
    pub notification_type: NotificationType,
    /// When the notification was created.
    pub created_at: std::time::Instant,
    /// How long the notification stays, in milliseconds.
    pub duration_ms: u64,
}

/// Whether a notification of this duration has expired after `elapsed` milliseconds.
pub open spec fn expired(duration_ms: u64, elapsed: u64) -> bool {
    elapsed > duration_ms
}

/// Whether a notification of this duration has expired after `elapsed_ns`
/// nanoseconds: strictly more time than its duration has passed.
pub open spec fn expired_at(duration_ms: u64, elapsed_ns: u128) -> bool {
    elapsed_ns > duration_ms * 1_000_000
}

impl Notification {
    /// Create a notification that stays for `duration_ms` milliseconds from now.
    pub fn new(message: &str, notification_type: NotificationType, duration_ms: u64) -> (n: Notification)
        ensures
            n.message@ == message@,
            n.notification_type == notification_type,
            n.duration_ms == duration_ms,
    {
        Notification { message: copy_str(message), notification_type, created_at: now(), duration_ms }
    }

    /// An information notification that stays 3 seconds.
    pub fn info(message: &str) -> (n: Notification)
        ensures
            n.message@ == message@,
            n.notification_type == NotificationType::Info,
            n.duration_ms == 3000,
    {
        Notification::new(message, NotificationType::Info, 3000)
    }

    /// A success notification that stays 3 seconds.
    pub fn success(message: &str) -> (n: Notification)
        ensures
            n.message@ == message@,
            n.notification_type == NotificationType::Success,
            n.duration_ms == 3000,
    {
        Notification::new(message, NotificationType::Success, 3000)
    }

    /// A warning notification that stays 5 seconds.
    pub fn warning(message: &str) -> (n: Notification)
        ensures
            n.message@ == message@,
            n.notification_type == NotificationType::Warning,
            n.duration_ms == 5000,
    {
        Notification::new(message, NotificationType::Warning, 5000)
    }

    /// An error notification that stays 5 seconds.
    pub fn error(message: &str) -> (n: Notification)
        ensures
            n.message@ == message@,
            n.notification_type == NotificationType::Error,
            n.duration_ms == 5000,
    {
        Notification::new(message, NotificationType::Error, 5000)
    }

    /// The same notification with another duration.
    pub fn with_duration(self, duration_ms: u64) -> (n: Notification)
        ensures
            n == (Notification { duration_ms, ..self }),
    {
        let mut n = self;
        n.duration_ms = duration_ms;
        n
    }

    /// Whether the notification has expired after `elapsed` milliseconds.
    pub fn is_expired_after(&self, elapsed: u64) -> (b: bool)
        ensures
            b == expired(self.duration_ms, elapsed),
    {
        elapsed > self.duration_ms
    }

    /// The milliseconds left after `elapsed` milliseconds, zero once expired.
    pub fn remaining_after(&self, elapsed: u64) -> (ms: u64)
        ensures
            ms == (if elapsed < self.duration_ms { self.duration_ms - elapsed } else { 0 }),
    {
        if elapsed < self.duration_ms {
            self.duration_ms - elapsed
        } else {
            0
        }
    }

    /// Whether the notification has expired after `elapsed_ns` nanoseconds.
    pub fn is_expired_at(&self, elapsed_ns: u128) -> (b: bool)
        ensures
            b == expired_at(self.duration_ms, elapsed_ns),
    {
        elapsed_ns > self.duration_ms as u128 * 1_000_000
    }

    /// Whether the notification has expired, by the clock.
    pub fn is_expired(&self) -> (b: bool)
        ensures
            exists|e: u128| b == expired_at(self.duration_ms, e),
    {
        let e = elapsed_nanos(&self.created_at);
        self.is_expired_at(e)
    }

    /// The milliseconds left, by the clock; never more than the duration.
    pub fn remaining(&self) -> (ms: u64)
        ensures
            exists|e: u64| ms == #[trigger] left_after(self.duration_ms, e),
            ms <= self.duration_ms,
    {
        let e = whole_millis(elapsed_nanos(&self.created_at));
        let ms = self.remaining_after(e);
        assert(ms == left_after(self.duration_ms, e));
        ms
    }
}

/// The milliseconds left of `duration_ms` after `elapsed`, zero once expired.
pub open spec fn left_after(duration_ms: u64, elapsed: u64) -> u64 {
    if elapsed < duration_ms {
        (duration_ms - elapsed) as u64
    } else {
        0
    }
}

/// The notifications kept of `s` when the ones flagged in `expired` are dropped.
pub open spec fn keep_unexpired(s: Seq<Notification>, expired: Seq<bool>) -> Seq<Notification>
    decreases s.len(),
{
    if s.len() == 0 {
        s
    } else {
        let rest = keep_unexpired(s.drop_last(), expired);
        if expired[s.len() - 1] {
            rest
        } else {
            rest.push(s.last())
        }
    }
}

/// The list after pushing `n` and dropping the oldest entries beyond `max`.
pub open spec fn pushed(s: Seq<Notification>, n: Notification, max: nat) -> Seq<Notification> {
    let t = s.push(n);
    if t.len() > max {
        t.skip(t.len() - max)
    } else {
        t
    }
}

/// Manages the notifications on screen.
#[derive(Debug)]
pub struct NotificationManager {
    /// Active notifications, oldest first.
    pub notifications: VecDeque<Notification>,
    /// Maximum number of notifications kept.
    pub max_visible: usize,
}

impl Default for NotificationManager {
    fn default() -> (m: NotificationManager)
        ensures
            m.notifications@.len() == 0,
            m.max_visible == 3,
    {
        NotificationManager::new()
    }
}

impl NotificationManager {
    /// Create a manager that keeps 3 notifications.
    pub fn new() -> (m: NotificationManager)
        ensures
            m.notifications@.len() == 0,
            m.max_visible == 3,
    {
        NotificationManager { notifications: VecDeque::new(), max_visible: 3 }
    }

    /// Create a manager that keeps `max_visible` notifications.
    pub fn with_max_visible(max_visible: usize) -> (m: NotificationManager)
        ensures
            m.notifications@.len() == 0,
            m.max_visible == max_visible,
    {
        NotificationManager { notifications: VecDeque::new(), max_visible }
    }

    /// Add a notification; the oldest ones beyond the limit are dropped.
    pub fn push(&mut self, notification: Notification)
        ensures
            final(self).max_visible == old(self).max_visible,
            final(self).notifications@ == pushed(old(self).notifications@, notification, old(self).max_visible as nat),
    {
        broadcast use vstd::std_specs::vecdeque::group_vec_dequeue_axioms;
        let ghost start = self.notifications@.push(notification);
        let ghost m = self.max_visible;
        self.notifications.push_back(notification);
        let ghost mut dropped: int = 0;
        while self.notifications.len() > self.max_visible
            invariant
                self.max_visible == m,
                dropped == 0 || start.len() - dropped >= m,
                0 <= dropped <= start.len(),
                self.notifications@ == start.skip(dropped),
            decreases self.notifications@.len(),
        {
            let _ = self.notifications.pop_front();
            proof {
                dropped = dropped + 1;
            }
            assert(self.notifications@ =~= start.skip(dropped));
        }
        proof {
            if start.len() > self.max_visible {
                assert(dropped == start.len() - self.max_visible);
            } else {
                assert(dropped == 0);
                assert(start.skip(0) =~= start);
            }
        }
    }

    /// Add an information notification.
    pub fn info(&mut self, message: &str)
        ensures
            final(self).max_visible == old(self).max_visible,
            exists|n: Notification|
                n.message@ == message@ && n.notification_type == NotificationType::Info && n.duration_ms == 3000
                    && final(self).notifications@ == pushed(old(self).notifications@, n, old(self).max_visible as nat),
    {
        self.push(Notification::info(message));
    }

    /// Add a success notification.
    pub fn success(&mut self, message: &str)
        ensures
            final(self).max_visible == old(self).max_visible,
            exists|n: Notification|
                n.message@ == message@ && n.notification_type == NotificationType::Success && n.duration_ms == 3000
                    && final(self).notifications@ == pushed(old(self).notifications@, n, old(self).max_visible as nat),
    {
        self.push(Notification::success(message));
    }

    /// Add a warning notification.
    pub fn warning(&mut self, message: &str)
        ensures
            final(self).max_visible == old(self).max_visible,
            exists|n: Notification|
                n.message@ == message@ && n.notification_type == NotificationType::Warning && n.duration_ms == 5000
                    && final(self).notifications@ == pushed(old(self).notifications@, n, old(self).max_visible as nat),
    {
        self.push(Notification::warning(message));
    }

    /// Add an error notification.
    pub fn error(&mut self, message: &str)
        ensures
            final(self).max_visible == old(self).max_visible,
            exists|n: Notification|
                n.message@ == message@ && n.notification_type == NotificationType::Error && n.duration_ms == 5000
                    && final(self).notifications@ == pushed(old(self).notifications@, n, old(self).max_visible as nat),
    {
        self.push(Notification::error(message));
    }

    /// Drop the notifications flagged as expired, keeping the others in order.
    pub fn remove_expired(&mut self, expired: &Vec<bool>)
        requires
            expired@.len() == old(self).notifications@.len(),
        ensures
            final(self).max_visible == old(self).max_visible,
            final(self).notifications@ == keep_unexpired(old(self).notifications@, expired@),
    {
        broadcast use vstd::std_specs::vecdeque::group_vec_dequeue_axioms;
        let ghost s = self.notifications@;
        let ghost m = self.max_visible;
        let mut kept: VecDeque<Notification> = VecDeque::new();
        let mut i: usize = 0;
        let n = self.notifications.len();
        while i < n
            invariant
                n == s.len(),
                self.max_visible == m,
                expired@.len() == n,
                i <= n,
                self.notifications@.len() == n - i,
                self.notifications@ == s.skip(i as int),
                kept@ == keep_unexpired(s.take(i as int), expired@),
            decreases n - i,
        {
            let front = self.notifications.pop_front();
            proof {
                assert(s.take(i + 1).drop_last() =~= s.take(i as int));
            }
            match front {
                Some(x) => {
                    proof {
                        assert(x == s[i as int]);
                        assert(self.notifications@ =~= s.skip(i + 1));
                    }
                    if !expired[i] {
                        kept.push_back(x);
                    }
                },
                None => {},
            }
            i += 1;
        }
        assert(s.take(n as int) =~= s);
        self.notifications = kept;
    }

    /// Remove the notifications that have expired by the clock; the others stay in order.
    pub fn tick(&mut self)
        ensures
            final(self).max_visible == old(self).max_visible,
            exists|flags: Seq<bool>|
                flags.len() == old(self).notifications@.len() && final(self).notifications@
                    == keep_unexpired(old(self).notifications@, flags),
    {
        broadcast use vstd::std_specs::vecdeque::group_vec_dequeue_axioms;
        let mut flags: Vec<bool> = Vec::new();
        let mut i: usize = 0;
        while i < self.notifications.len()
            invariant
                i <= self.notifications@.len(),
                flags@.len() == i,
            decreases self.notifications.len() - i,
        {
            flags.push(self.notifications[i].is_expired());
            i += 1;
        }
        self.remove_expired(&flags);
    }

    /// Remove all notifications.
    pub fn clear(&mut self)
        ensures
            final(self).notifications@.len() == 0,
            final(self).max_visible == old(self).max_visible,
    {
        self.notifications = VecDeque::new();
    }

    /// Check if there are no notifications.
    pub fn is_empty(&self) -> (b: bool)
        ensures
            b == (self.notifications@.len() == 0),
    {
        broadcast use vstd::std_specs::vecdeque::group_vec_dequeue_axioms;
        self.notifications.len() == 0
    }

    /// The number of notifications.
    pub fn len(&self) -> (n: usize)
        ensures
            n == self.notifications@.len(),
    {
        broadcast use vstd::std_specs::vecdeque::group_vec_dequeue_axioms;
        self.notifications.len()
    }

    /// Where the notifications are drawn in `area` and the height of each: a box at
    /// the bottom-right corner, 2 columns from the right edge and 1 row from the
    /// bottom, as many rows high as the notifications take (clipped to the screen).
    pub fn layout(&self, area: Rect) -> (r: (Rect, Vec<u16>))
        requires
            stack_fits(self.notifications@, area),
            area.x + sat_sub(area.width, (stack_width(area.width) + 2) as u16) <= u16::MAX,
            area.y + sat_sub(area.height, (stack_rows(self.notifications@, area) + 1) as u16) <= u16::MAX,
        ensures
            r.1@.len() == self.notifications@.len(),
            forall|i: int|
                0 <= i < r.1@.len() ==> r.1@[i] == box_height(
                    message_len(#[trigger] self.notifications@[i]),
                    text_width(area.width),
                ),
            r.0 == (Rect {
                x: (area.x + sat_sub(area.width, (stack_width(area.width) + 2) as u16)) as u16,
                y: (area.y + sat_sub(area.height, (stack_rows(self.notifications@, area) + 1) as u16)) as u16,
                width: stack_width(area.width),
                height: stack_rows(self.notifications@, area) as u16,
            }),
    {
        let room = area.width.saturating_sub(4);
        let width: u16 = if 50 <= room {
            50
        } else {
            room
        };
        let inner: usize = width.saturating_sub(4) as usize;
        let ghost ns = self.notifications@;
        let mut heights: Vec<u16> = Vec::new();
        let mut total: u16 = 0;
        let mut i: usize = 0;
        while i < self.notifications.len()
            invariant
                ns == self.notifications@,
                inner == text_width(area.width),
                stack_fits(ns, area),
                i <= ns.len(),
                heights@.len() == i,
                forall|j: int|
                    0 <= j < i ==> heights@[j] == box_height(message_len(#[trigger] ns[j]), inner as int),
                total == stack_height(ns, inner as int, i as int),
            decreases ns.len() - i,
        {
            let len = self.notifications[i].message.as_str().len();
            assert(message_len(ns[i as int]) + 2 + text_width(area.width) <= usize::MAX);
            let lines: usize = if inner > 0 {
                (len + 2 + inner - 1) / inner
            } else {
                1
            };
            proof {
                lemma_stack_height_monotone(ns, inner as int, i + 1, ns.len() as int);
            }
            let h: u16 = (lines + 2) as u16;
            heights.push(h);
            total = total + h;
            i += 1;
        }
        let limit = area.height.saturating_sub(2);
        let rows: u16 = if total <= limit {
            total
        } else {
            limit
        };
        let x = area.x + area.width.saturating_sub(width + 2);
        let y = area.y + area.height.saturating_sub(rows + 1);
        (Rect::new(x, y, width, rows), heights)
    }

    /// Iterate over the notifications, oldest first.
    pub fn iter(&self) -> (it: std::collections::vec_deque::Iter<'_, Notification>)
        ensures
            vstd::std_specs::iter::IteratorSpec::remaining(&it) == self.notifications@.as_ref(),
    {
        broadcast use vstd::std_specs::vecdeque::group_vec_dequeue_axioms;
        self.notifications.iter()
    }
}

/// The width of the box the notifications are stacked in: 50 columns, or the
/// screen width less 4 when that is smaller.
pub open spec fn stack_width(area_width: u16) -> u16 {
    min_u16(50, sat_sub(area_width, 4) as u16)
}

/// The columns left for text in the box, inside the borders and the icon.
pub open spec fn text_width(area_width: u16) -> int {
    sat_sub(stack_width(area_width), 4)
}

/// The length in bytes of a notification's message.
pub open spec fn message_len(n: Notification) -> int {
    encode_utf8(n.message@).len() as int
}

/// The rows a message of `len` bytes takes: the icon and a space before it, wrapped
/// at `width` columns (one row when there is no room), plus two borders.
pub open spec fn box_height(len: int, width: int) -> int {
    (if width > 0 {
        (len + 2 + width - 1) / width
    } else {
        1
    }) + 2
}

/// The rows of the first `k` notifications together.
pub open spec fn stack_height(ns: Seq<Notification>, width: int, k: int) -> int
    decreases k,
{
    if k <= 0 {
        0
    } else {
        stack_height(ns, width, k - 1) + box_height(message_len(ns[k - 1]), width)
    }
}

/// The rows the stack is given: all it takes, but no more than the screen less 2.
pub open spec fn stack_rows(ns: Seq<Notification>, area: Rect) -> int {
    let total = stack_height(ns, text_width(area.width), ns.len() as int);
    let room = sat_sub(area.height, 2);
    if total <= room {
        total
    } else {
        room
    }
}

/// The stacked heights fit in a `u16` and the row counts in a `usize`.
pub open spec fn stack_fits(ns: Seq<Notification>, area: Rect) -> bool {
    &&& stack_height(ns, text_width(area.width), ns.len() as int) <= u16::MAX
    &&& forall|i: int| 0 <= i < ns.len() ==> message_len(#[trigger] ns[i]) + 2 + text_width(area.width) <= usize::MAX
}

/// The stack's heights grow with the number of notifications counted.
proof fn lemma_stack_height_monotone(ns: Seq<Notification>, width: int, j: int, k: int)
    requires
        0 <= j <= k,
    ensures
        stack_height(ns, width, j) <= stack_height(ns, width, k),
    decreases k - j,
{
    if j < k {
        lemma_stack_height_monotone(ns, width, j, k - 1);
        assert(box_height(message_len(ns[k - 1]), width) >= 0) by (nonlinear_arith)
            requires
                message_len(ns[k - 1]) >= 0,
            {
            };
    }
}

/// After a push the manager holds at most `max_visible` notifications (when that is
/// positive), the newest last.
pub proof fn law_push_bounded(s: Seq<Notification>, n: Notification, max: nat)
    requires
        max > 0,
    ensures
        pushed(s, n, max).len() <= max,
        pushed(s, n, max).len() == if s.len() + 1 > max { max } else { s.len() + 1 },
        pushed(s, n, max).last() == n,
{
}

} // verus!
