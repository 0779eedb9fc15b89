//! Loading indicators with animated spinners for work in progress.
use vstd::prelude::*;

use crate::text::{concat3, copy_str};

verus! {

/// The type of spinner to use.
#[derive(Debug, Clone, Copy, PartialEq, Eq, Structural)]
pub enum SpinnerStyle {
    /// Braille dots spinner (the default).
    Braille,
    /// Simple ASCII spinner for compatibility.
    Simple,
    /// Dots spinner.
    Dots,
}

impl Default for SpinnerStyle {
    fn default() -> (s: SpinnerStyle)
        ensures
            s == SpinnerStyle::Braille,
    {
        SpinnerStyle::Braille
    }
}

/// The animation frames of a spinner style.
pub open spec fn spinner_frames(s: SpinnerStyle) -> Seq<Seq<char>> {
    match s {
        SpinnerStyle::Braille => seq![
            "⠋"@, "⠙"@, "⠹"@, "⠸"@, "⠼"@, "⠴"@, "⠦"@, "⠧"@, "⠇"@, "⠏"@,
        ],
        SpinnerStyle::Simple => seq!["|"@, "/"@, "-"@, "\\"@],
        SpinnerStyle::Dots => seq!["⣾"@, "⣽"@, "⣻"@, "⢿"@, "⡿"@, "⣟"@, "⣯"@, "⣷"@],
    }
}

/// The number of frames of a spinner style.
pub open spec fn frame_count(s: SpinnerStyle) -> nat {
    match s {
        SpinnerStyle::Braille => 10,
        SpinnerStyle::Simple => 4,
        SpinnerStyle::Dots => 8,
    }
}

/// The frame of a style at an index.
fn frame_at(style: SpinnerStyle, i: usize) -> (f: &'static str)
    requires
        i < frame_count(style),
    ensures
        f@ == spinner_frames(style)[i as int],
{
    match style {
        SpinnerStyle::Braille => {
            if i == 0 { "⠋" } else if i == 1 { "⠙" } else if i == 2 { "⠹" } else if i == 3 { "⠸" } else if i == 4 { "⠼" } else if i == 5 { "⠴" } else if i == 6 { "⠦" } else if i == 7 { "⠧" } else if i == 8 { "⠇" } else { "⠏" }
        },
        SpinnerStyle::Simple => {
            if i == 0 { "|" } else if i == 1 { "/" } else if i == 2 { "-" } else { "\\" }
        },
        SpinnerStyle::Dots => {
            if i == 0 { "⣾" } else if i == 1 { "⣽" } else if i == 2 { "⣻" } else if i == 3 { "⢿" } else if i == 4 { "⡿" } else if i == 5 { "⣟" } else if i == 6 { "⣯" } else { "⣷" }
        },
    }
}

/// The number of frames of a style.
fn frames_len(style: SpinnerStyle) -> (n: usize)
    ensures
        n == frame_count(style),
        n == spinner_frames(style).len(),
{
    match style {
        SpinnerStyle::Braille => 10,
        SpinnerStyle::Simple => 4,
        SpinnerStyle::Dots => 8,
    }
}

impl SpinnerStyle {
    /// Get the frames for this spinner style.
    pub fn frames(&self) -> (v: Vec<&'static str>)
        ensures
            v@.map_values(|f: &str| f@) == spinner_frames(*self),
    {
        let n = frames_len(*self);
        let mut v: Vec<&'static str> = Vec::new();
        let mut i: usize = 0;
        while i < n
            invariant
                n == frame_count(*self),
                n == spinner_frames(*self).len(),
                i <= n,
                v@.map_values(|f: &str| f@) == spinner_frames(*self).take(i as int),
            decreases n - i,
        {
            let ghost prev = v@;
            let f = frame_at(*self, i);
            v.push(f);
            assert(v@.map_values(|f: &str| f@) =~= prev.map_values(|f: &str| f@).push(f@));
            assert(spinner_frames(*self).take(i + 1) =~= spinner_frames(*self).take(i as int).push(
                spinner_frames(*self)[i as int],
            ));
            i += 1;
        }
        assert(spinner_frames(*self).take(n as int) =~= spinner_frames(*self));
        v
    }
}

/// A loading indicator with an animated spinner.
#[derive(Debug, Clone)]
pub struct LoadingIndicator {
    /// The message to display.
    pub message: String,
    /// Current spinner frame index.
    pub spinner_state: usize,
    /// The spinner style.
    pub spinner_style: SpinnerStyle,
    /// Whether the loading indicator is active.
    pub active: bool,
}

impl Default for LoadingIndicator {
    fn default() -> (l: LoadingIndicator)
        ensures
            l.wf(),
            l.message@ == "Loading..."@,
            l.spinner_state == 0,
            l.spinner_style == SpinnerStyle::Braille,
            !l.active,
    {
        LoadingIndicator::new()
    }
}

impl LoadingIndicator {
    /// The frame index is a frame of the style.
    pub open spec fn wf(&self) -> bool {
        self.spinner_state < frame_count(self.spinner_style)
    }

    /// Create a new loading indicator.
    pub fn new() -> (l: LoadingIndicator)
        ensures
            l.wf(),
            l.message@ == "Loading..."@,
            l.spinner_state == 0,
            l.spinner_style == SpinnerStyle::Braille,
            !l.active,
    {
        LoadingIndicator {
            message: copy_str("Loading..."),
            spinner_state: 0,
            spinner_style: SpinnerStyle::Braille,
            active: false,
        }
    }

    /// Create a loading indicator with a custom message.
    pub fn with_message(message: &str) -> (l: LoadingIndicator)
        ensures
            l.wf(),
            l.message@ == message@,
            l.spinner_state == 0,
            l.spinner_style == SpinnerStyle::Braille,
            !l.active,
    {
        LoadingIndicator {
            message: copy_str(message),
            spinner_state: 0,
            spinner_style: SpinnerStyle::Braille,
            active: false,
        }
    }

    /// Set the spinner style.
    pub fn with_style(self, style: SpinnerStyle) -> (l: LoadingIndicator)
        ensures
            l == (LoadingIndicator { spinner_style: style, ..self }),
    {
        let mut l = self;
        l.spinner_style = style;
        l
    }

    /// Set the message.
    pub fn set_message(&mut self, message: &str)
        ensures
            final(self).message@ == message@,
            final(self).spinner_state == old(self).spinner_state,
            final(self).spinner_style == old(self).spinner_style,
            final(self).active == old(self).active,
    {
        self.message = copy_str(message);
    }

    /// Get the current message.
    pub fn message(&self) -> (s: &str)
        ensures
            s@ == self.message@,
    {
        self.message.as_str()
    }

    /// Start the indicator at the first frame.
    pub fn start(&mut self)
        ensures
            *final(self) == (LoadingIndicator { active: true, spinner_state: 0, ..*old(self) }),
    {
        self.active = true;
        self.spinner_state = 0;
    }

    /// Start with a specific message.
    pub fn start_with_message(&mut self, message: &str)
        ensures
            final(self).message@ == message@,
            final(self).active,
            final(self).spinner_state == 0,
            final(self).spinner_style == old(self).spinner_style,
    {
        self.message = copy_str(message);
        self.start();
    }

    /// Stop the indicator.
    pub fn stop(&mut self)
        ensures
            *final(self) == (LoadingIndicator { active: false, ..*old(self) }),
    {
        self.active = false;
    }

    /// Check if the indicator is active.
    pub fn is_active(&self) -> (b: bool)
        ensures
            b == self.active,
    {
        self.active
    }

    /// Advance the animation by one frame, wrapping around, when active.
    pub fn tick(&mut self)
        requires
            old(self).spinner_state < usize::MAX,
        ensures
            old(self).active || old(self).wf() ==> final(self).wf(),
            *final(self) == (if old(self).active {
                LoadingIndicator {
                    spinner_state: ((old(self).spinner_state + 1) % (frame_count(old(self).spinner_style) as int)) as usize,
                    ..*old(self)
                }
            } else {
                *old(self)
            }),
    {
        if self.active {
            let n = frames_len(self.spinner_style);
            self.spinner_state = (self.spinner_state + 1) % n;
        }
    }

    /// Get the current spinner frame.
    pub fn spinner_frame(&self) -> (f: &'static str)
        requires
            self.wf(),
        ensures
            f@ == spinner_frames(self.spinner_style)[self.spinner_state as int],
    {
        frame_at(self.spinner_style, self.spinner_state)
    }

    /// The frame and message separated by a space when active, the empty string otherwise.
    pub fn text(&self) -> (s: String)
        requires
            self.wf(),
        ensures
            self.active ==> s@ == spinner_frames(self.spinner_style)[self.spinner_state as int] + " "@ + self.message@,
            !self.active ==> s@.len() == 0,
    {
        if self.active {
            concat3(self.spinner_frame(), " ", self.message.as_str())
        } else {
            String::new()
        }
    }
}

/// A simple inline loading indicator for status bars.
#[derive(Debug, Clone)]
pub struct InlineLoader {
    /// Current spinner frame index.
    pub spinner_state: usize,
    /// Whether the loader is active.
    pub active: bool,
}

impl Default for InlineLoader {
    fn default() -> (l: InlineLoader)
        ensures
            l.spinner_state == 0,
            !l.active,
    {
        InlineLoader { spinner_state: 0, active: false }
    }
}

impl InlineLoader {
    /// The frame index is a Braille frame.
    pub open spec fn wf(&self) -> bool {
        self.spinner_state < 10
    }

    /// Create a new inline loader.
    pub fn new() -> (l: InlineLoader)
        ensures
            l.wf(),
            l.spinner_state == 0,
            !l.active,
    {
        InlineLoader::default()
    }

    /// Start the loader.
    pub fn start(&mut self)
        ensures
            *final(self) == (InlineLoader { active: true, ..*old(self) }),
    {
        self.active = true;
    }

    /// Stop the loader.
    pub fn stop(&mut self)
        ensures
            *final(self) == (InlineLoader { active: false, ..*old(self) }),
    {
        self.active = false;
    }

    /// Check if active.
    pub fn is_active(&self) -> (b: bool)
        ensures
            b == self.active,
    {
        self.active
    }

    /// Advance the animation, wrapping around the Braille frames, when active.
    pub fn tick(&mut self)
        requires
            old(self).wf(),
        ensures
            final(self).wf(),
            final(self).active == old(self).active,
            final(self).spinner_state == (if old(self).active {
                (old(self).spinner_state + 1) % 10
            } else {
                old(self).spinner_state as int
            }),
    {
        if self.active {
            self.spinner_state = (self.spinner_state + 1) % 10;
        }
    }

    /// The current Braille frame, or a single space when not active.
    pub fn frame(&self) -> (f: &'static str)
        requires
            self.wf(),
        ensures
            self.active ==> f@ == spinner_frames(SpinnerStyle::Braille)[self.spinner_state as int],
            !self.active ==> f@ == " "@,
    {
        if self.active {
            frame_at(SpinnerStyle::Braille, self.spinner_state)
        } else {
            " "
        }
    }
}

/// The frame index after `n` ticks of an active spinner with `count` frames.
pub open spec fn ticked(state: int, count: int, n: nat) -> int
    decreases n,
{
    if n == 0 {
        state
    } else {
        (ticked(state, count, (n - 1) as nat) + 1) % count
    }
}

proof fn lemma_ticked(state: int, count: int, n: nat)
    requires
        0 <= state < count,
    ensures
        ticked(state, count, n) == (state + n) % count,
    decreases n,
{
    if n == 0 {
        vstd::arithmetic::div_mod::lemma_small_mod(state as nat, count as nat);
    } else {
        lemma_ticked(state, count, (n - 1) as nat);
        vstd::arithmetic::div_mod::lemma_add_mod_noop(state + n - 1, 1, count);
        if count > 1 {
            vstd::arithmetic::div_mod::lemma_small_mod(1, count as nat);
        } else {
            vstd::arithmetic::div_mod::lemma_mod_add_multiples_vanish(0, 1);
            assert(1int % 1 == 0);
        }
    }
}

/// Ticking an active spinner as many times as its style has frames brings it back
/// to the frame it started on.
pub proof fn law_spinner_cycle(state: int, style: SpinnerStyle)
    requires
        0 <= state < frame_count(style),
    ensures
        ticked(state, frame_count(style) as int, frame_count(style)) == state,
{
    let c = frame_count(style) as int;
    lemma_ticked(state, c, c as nat);
    vstd::arithmetic::div_mod::lemma_mod_add_multiples_vanish(state, c);
    vstd::arithmetic::div_mod::lemma_small_mod(state as nat, c as nat);
}

} // verus!
