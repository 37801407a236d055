//! Where the display's words stand, and in which colour.

use crate::hud::layout::{
    drawn_lines, drawn_lines_are_counted, line_count, text_lines, words_height, LineCapacity,
};
use crate::hud::{Caption, CaptionView, Kind, SURFACE_HEIGHT};
use crate::text::{texts, trimmed};
use vstd::prelude::*;
use vstd::string::*;

verus! {

/// Where the words start: under the track.
pub const WORDS_TOP: u32 = 50;

/// Space between the lines of a text, over its size.
pub const LINE_GAP: u32 = 5;

/// Margin of the display's body at the bottom of its surface.
pub const BODY_MARGIN: u32 = 6;

/// A colour of the palette.
#[derive(Clone, Copy, Debug, PartialEq, Eq, Structural)]
pub enum Tone {
    Foreground,
    Accent,
    Attention,
}

/// The colour of the track: work is accented, and only attention calls for it.
pub open spec fn tone_of(kind: Kind) -> Tone {
    match kind {
        Kind::Recording | Kind::Working | Kind::Finishing => Tone::Accent,
        Kind::Attention => Tone::Attention,
        Kind::Resolved | Kind::Neutral => Tone::Foreground,
    }
}

/// The colour of the track.
pub fn track_tone(kind: Kind) -> (result: Tone)
    ensures
        result == tone_of(kind),
{
    match kind {
        Kind::Recording | Kind::Working | Kind::Finishing => Tone::Accent,
        Kind::Attention => Tone::Attention,
        Kind::Resolved | Kind::Neutral => Tone::Foreground,
    }
}

/// A text as it is drawn.
#[derive(Debug, PartialEq, Eq)]
pub struct WordBlock {
    pub lines: Vec<String>,
    pub top: u32,
    pub size: u32,
    pub tone: Tone,
}

/// What a [`WordBlock`] holds.
pub struct WordBlockView {
    pub lines: Seq<Seq<char>>,
    pub top: nat,
    pub size: nat,
    pub tone: Tone,
}

impl View for WordBlock {
    type V = WordBlockView;

    open spec fn view(&self) -> WordBlockView {
        WordBlockView {
            lines: texts(self.lines@),
            top: self.top as nat,
            size: self.size as nat,
            tone: self.tone,
        }
    }
}

impl WordBlockView {
    /// Where the block ends.
    pub open spec fn end(self) -> nat {
        self.top + self.lines.len() * (self.size + LINE_GAP as nat)
    }
}

/// A text at a place.
pub open spec fn block(
    text: Seq<char>,
    top: nat,
    size: nat,
    max_chars: usize,
    max_lines: nat,
    tone: Tone,
) -> WordBlockView {
    WordBlockView {
        lines: drawn_lines(trimmed(text), max_chars as nat, max_lines),
        top,
        size,
        tone,
    }
}

/// The display's words: the title, what is there of a detail, an action and feedback,
/// and the rule over the feedback.
#[derive(Debug, PartialEq, Eq)]
pub struct WordsPlan {
    pub title: WordBlock,
    pub detail: Option<WordBlock>,
    pub action: Option<WordBlock>,
    pub rule: Option<u32>,
    pub feedback: Option<WordBlock>,
}

/// What a [`WordsPlan`] holds.
pub struct WordsPlanView {
    pub title: WordBlockView,
    pub detail: Option<WordBlockView>,
    pub action: Option<WordBlockView>,
    pub rule: Option<nat>,
    pub feedback: Option<WordBlockView>,
}

/// What an optional block holds.
pub open spec fn optional_block(block: Option<WordBlock>) -> Option<WordBlockView> {
    match block {
        Some(block) => Some(block@),
        None => None,
    }
}

/// Where an optional block ends, or what is above it where there is none.
pub open spec fn end_after(above: nat, block: Option<WordBlockView>) -> nat {
    match block {
        Some(block) => block.end(),
        None => above,
    }
}

impl View for WordsPlan {
    type V = WordsPlanView;

    open spec fn view(&self) -> WordsPlanView {
        WordsPlanView {
            title: self.title@,
            detail: optional_block(self.detail),
            action: optional_block(self.action),
            rule: match self.rule {
                Some(top) => Some(top as nat),
                None => None,
            },
            feedback: optional_block(self.feedback),
        }
    }
}

impl WordsPlanView {
    /// Where the words end.
    pub open spec fn end(self) -> nat {
        end_after(end_after(end_after(self.title.end(), self.detail), self.action), self.feedback)
    }
}

/// Where each text stands. An action under attention has its colour.
pub open spec fn planned_words(
    caption: CaptionView,
    interaction: Option<Seq<char>>,
    capacity: LineCapacity,
    kind: Kind,
) -> WordsPlanView {
    let title = block(
        caption.title,
        WORDS_TOP as nat,
        12,
        capacity.title,
        3,
        Tone::Foreground,
    );
    let detail = if caption.detail.len() == 0 {
        None
    } else {
        Some(block(caption.detail, title.end() + 3, 11, capacity.detail, 3, Tone::Foreground))
    };
    let above = end_after(title.end(), detail);
    let action = if caption.action.len() == 0 {
        None
    } else {
        Some(
            block(
                caption.action,
                above + 7,
                10,
                capacity.action,
                4,
                if kind == Kind::Attention {
                    Tone::Attention
                } else {
                    Tone::Foreground
                },
            ),
        )
    };
    let last = end_after(above, action);
    WordsPlanView {
        title,
        detail,
        action,
        rule: match interaction {
            Some(_) => Some(last + 7),
            None => None,
        },
        feedback: match interaction {
            Some(text) => Some(block(text, last + 13, 11, capacity.detail, 2, Tone::Foreground)),
            None => None,
        },
    }
}

fn place(text: &str, top: u32, size: u32, max_chars: usize, max_lines: usize, tone: Tone) -> (
    result: WordBlock)
    ensures
        result@ == block(text@, top as nat, size as nat, max_chars, max_lines as nat, tone),
        result.lines@.len() <= max_lines,
{
    let lines = text_lines(text, max_chars, max_lines);
    proof {
        drawn_lines_are_counted(trimmed(text@), max_chars as nat, max_lines as nat);
        assert(texts(lines@) =~= drawn_lines(
            trimmed(text@),
            max_chars as nat,
            max_lines as nat,
        ));
    }
    WordBlock { lines, top, size, tone }
}

fn end_of(block: &WordBlock) -> (result: u32)
    requires
        block.top <= 1_000,
        block.size <= 12,
        block.lines@.len() <= 4,
    ensures
        result as nat == block@.end(),
        result <= block.top + 68,
{
    let rows: u32 = block.lines.len() as u32;
    let pitch: u32 = block.size + LINE_GAP;
    assert(0 <= rows * pitch <= 68) by (nonlinear_arith)
        requires
            rows <= 4,
            pitch <= 17,
    ;
    block.top + rows * pitch
}

/// Plan where each text stands.
pub fn plan_words(
    caption: &Caption,
    interaction: Option<&str>,
    capacity: LineCapacity,
    kind: Kind,
) -> (result: WordsPlan)
    ensures
        result@ == planned_words(
            caption@,
            match interaction {
                Some(text) => Some(text@),
                None => None,
            },
            capacity,
            kind,
        ),
{
    let title = place(caption.title.as_str(), WORDS_TOP, 12, capacity.title, 3, Tone::Foreground);
    let mut y: u32 = end_of(&title);
    let mut detail: Option<WordBlock> = None;
    if !caption.detail.as_str().is_empty() {
        let words = place(
            caption.detail.as_str(),
            y + 3,
            11,
            capacity.detail,
            3,
            Tone::Foreground,
        );
        y = end_of(&words);
        detail = Some(words);
    }
    let mut action: Option<WordBlock> = None;
    if !caption.action.as_str().is_empty() {
        let tone = if kind == Kind::Attention {
            Tone::Attention
        } else {
            Tone::Foreground
        };
        let words = place(caption.action.as_str(), y + 7, 10, capacity.action, 4, tone);
        y = end_of(&words);
        action = Some(words);
    }
    let (rule, feedback) = match interaction {
        Some(text) => (
            Some(y + 7),
            Some(place(text, y + 13, 11, capacity.detail, 2, Tone::Foreground)),
        ),
        None => (None, None),
    };
    WordsPlan { title, detail, action, rule, feedback }
}

/// A surface of the planned height holds all of its words, with room under them.
pub proof fn words_fit_the_surface(
    caption: CaptionView,
    interaction: Option<Seq<char>>,
    capacity: LineCapacity,
    kind: Kind,
)
    ensures
        ({
            let height = words_height(caption, interaction, capacity);
            let end = planned_words(caption, interaction, capacity, kind).end();
            &&& height == 0 ==> end == WORDS_TOP
            &&& height > 0 ==> end + 12 <= SURFACE_HEIGHT - BODY_MARGIN + height
        }),
{
    lemma_block_end(caption.title, WORDS_TOP as nat, 12, capacity.title, 3, Tone::Foreground);
    let title = block(
        caption.title,
        WORDS_TOP as nat,
        12,
        capacity.title,
        3,
        Tone::Foreground,
    ).end();
    lemma_block_end(caption.detail, title + 3, 11, capacity.detail, 3, Tone::Foreground);
    let plan = planned_words(caption, interaction, capacity, kind);
    let above = end_after(title, plan.detail);
    let tone = if kind == Kind::Attention {
        Tone::Attention
    } else {
        Tone::Foreground
    };
    lemma_block_end(caption.action, above + 7, 10, capacity.action, 4, tone);
    if let Some(text) = interaction {
        let last = end_after(above, plan.action);
        lemma_block_end(text, last + 13, 11, capacity.detail, 2, Tone::Foreground);
    }
}

proof fn lemma_block_end(
    text: Seq<char>,
    top: nat,
    size: nat,
    max_chars: usize,
    max_lines: nat,
    tone: Tone,
)
    ensures
        block(text, top, size, max_chars, max_lines, tone).end() == top + (size + LINE_GAP)
            * line_count(trimmed(text), max_chars as nat, max_lines),
{
    drawn_lines_are_counted(trimmed(text), max_chars as nat, max_lines);
    let rows = line_count(trimmed(text), max_chars as nat, max_lines);
    let pitch = (size + LINE_GAP) as nat;
    assert(rows * pitch == pitch * rows) by (nonlinear_arith);
}

} // verus!
