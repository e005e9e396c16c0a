//! The values of the game: what is drilled, what is on screen, what is to be
//! heard, and the progress of one play-through. Each type that holds text has
//! a view in which text is a sequence of characters and counters are natural
//! numbers; the contracts of the engine speak about those views.

use vstd::prelude::*;
use vstd::string::*;

verus! {

/// The category of content drilled in a session.
#[derive(Debug, Clone, Copy, PartialEq, Eq, Structural)]
pub enum GameVariant {
    Numbers,
    Letters,
    LetterTeams,
}

/// The one pending audio cue.
#[derive(Debug, Clone, PartialEq, Eq)]
pub enum SoundEvent {
    /// Nothing is pending.
    Silent,
    PlaySuccess,
    PlayFailure,
    SayPrompt(String),
    GameStart,
    LevelComplete,
}

/// The screen to render.
#[derive(Debug, Clone, PartialEq)]
#[allow(inconsistent_fields)]
pub enum GameStatus {
    Menu,
    Settings { message: Option<String> },
    Playing,
    Feedback { success: bool, message: String },
    LevelComplete { level: u32, score: u32, passed: bool },
    SessionComplete { score: u32 },
    About,
}

/// The active play-through.
#[derive(Debug, Clone)]
pub struct SessionState {
    pub variant: GameVariant,
    pub current_level: u32,
    pub current_question_index: u32,
    pub total_questions: u32,
    pub score: u32,
    pub total_score: u32,
    pub target: String,
    pub options: Vec<String>,
    pub selected_index: usize,
    pub level_time_limit: Option<u64>,
    pub level_elapsed_time: u64,
}

/// A sound event with its text as a sequence of characters.
pub enum SoundView {
    Silent,
    PlaySuccess,
    PlayFailure,
    SayPrompt(Seq<char>),
    GameStart,
    LevelComplete,
}

/// A status with its texts as sequences of characters.
#[allow(inconsistent_fields)]
pub enum StatusView {
    Menu,
    Settings { message: Option<Seq<char>> },
    Playing,
    Feedback { success: bool, message: Seq<char> },
    LevelComplete { level: nat, score: nat, passed: bool },
    SessionComplete { score: nat },
    About,
}

/// A session with unbounded counters and its texts as sequences of characters.
pub struct SessionView {
    pub variant: GameVariant,
    pub current_level: nat,
    pub current_question_index: nat,
    pub total_questions: nat,
    pub score: nat,
    pub total_score: nat,
    pub target: Seq<char>,
    pub options: Seq<Seq<char>>,
    pub selected_index: nat,
    pub level_time_limit: Option<nat>,
    pub level_elapsed_time: nat,
}

/// The texts that a list of strings holds, in order.
pub open spec fn texts(items: Seq<String>) -> Seq<Seq<char>> {
    items.map_values(|item: String| item@)
}

impl Default for SoundEvent {
    fn default() -> (sound: Self)
        ensures
            sound@ == SoundView::Silent,
    {
        SoundEvent::Silent
    }
}

impl View for SoundEvent {
    type V = SoundView;

    open spec fn view(&self) -> SoundView {
        match *self {
            SoundEvent::Silent => SoundView::Silent,
            SoundEvent::PlaySuccess => SoundView::PlaySuccess,
            SoundEvent::PlayFailure => SoundView::PlayFailure,
            SoundEvent::SayPrompt(text) => SoundView::SayPrompt(text@),
            SoundEvent::GameStart => SoundView::GameStart,
            SoundEvent::LevelComplete => SoundView::LevelComplete,
        }
    }
}

impl View for GameStatus {
    type V = StatusView;

    open spec fn view(&self) -> StatusView {
        match *self {
            GameStatus::Menu => StatusView::Menu,
            GameStatus::Settings { message } => StatusView::Settings {
                message: match message {
                    Some(text) => Some(text@),
                    None => None,
                },
            },
            GameStatus::Playing => StatusView::Playing,
            GameStatus::Feedback { success, message } => StatusView::Feedback {
                success,
                message: message@,
            },
            GameStatus::LevelComplete { level, score, passed } => StatusView::LevelComplete {
                level: level as nat,
                score: score as nat,
                passed,
            },
            GameStatus::SessionComplete { score } => StatusView::SessionComplete {
                score: score as nat,
            },
            GameStatus::About => StatusView::About,
        }
    }
}

impl View for SessionState {
    type V = SessionView;

    open spec fn view(&self) -> SessionView {
        SessionView {
            variant: self.variant,
            current_level: self.current_level as nat,
            current_question_index: self.current_question_index as nat,
            total_questions: self.total_questions as nat,
            score: self.score as nat,
            total_score: self.total_score as nat,
            target: self.target@,
            options: texts(self.options@),
            selected_index: self.selected_index as nat,
            level_time_limit: match self.level_time_limit {
                Some(limit) => Some(limit as nat),
                None => None,
            },
            level_elapsed_time: self.level_elapsed_time as nat,
        }
    }
}

/// The text of one character: the one that stands `offset` places after `first`.
pub open spec fn letter_at(first: char, offset: int) -> Seq<char> {
    seq![((first as int) + offset) as char]
}

/// The candidate items of a variant, in their fixed order: the digits `1` to
/// `9`, the capital letters `A` to `Z`, or eight two-letter teams.
pub open spec fn pool(variant: GameVariant) -> Seq<Seq<char>> {
    match variant {
        GameVariant::Numbers => Seq::new(9, |i: int| letter_at('1', i)),
        GameVariant::Letters => Seq::new(26, |i: int| letter_at('A', i)),
        GameVariant::LetterTeams => seq![
            seq!['t', 'h'],
            seq!['s', 'h'],
            seq!['c', 'h'],
            seq!['w', 'h'],
            seq!['p', 'h'],
            seq!['n', 'g'],
            seq!['c', 'k'],
            seq!['q', 'u'],
        ],
    }
}

/// No item occurs twice in a pool, and no pool is empty.
pub proof fn lemma_pool_distinct(variant: GameVariant)
    ensures
        pool(variant).no_duplicates(),
        pool(variant).len() == pool_size(variant),
        pool(variant).len() >= 8,
{
    let p = pool(variant);
    assert forall|i: int, j: int| 0 <= i < p.len() && 0 <= j < p.len() && i != j implies p[i]
        != p[j] by {
        assert(p[i][0] != p[j][0] || p[i][1] != p[j][1]);
    }
}

/// The number of items in the pool of a variant.
pub open spec fn pool_size(variant: GameVariant) -> nat {
    match variant {
        GameVariant::Numbers => 9,
        GameVariant::Letters => 26,
        GameVariant::LetterTeams => 8,
    }
}

/// Appends to `items` the one-character strings cut out of `alphabet`, which
/// holds the characters that follow `first` in order.
fn push_letters(items: &mut Vec<String>, alphabet: &str, first: char)
    requires
        alphabet.is_ascii(),
        old(items)@.len() == 0,
        forall|i: int| 0 <= i < alphabet@.len() ==> alphabet@[i] == ((first as int) + i) as char,
    ensures
        texts(final(items)@) == Seq::new(alphabet@.len(), |i: int| letter_at(first, i)),
{
    let count = alphabet.unicode_len();
    let mut at: usize = 0;
    while at < count
        invariant
            at <= count,
            count == alphabet@.len(),
            alphabet.is_ascii(),
            items@.len() == at,
            forall|i: int| 0 <= i < alphabet@.len() ==> alphabet@[i] == ((first as int) + i) as char,
            forall|i: int| 0 <= i < at ==> (#[trigger] items@[i])@ == letter_at(first, i),
        decreases count - at,
    {
        let one = alphabet.substring_ascii(at, at + 1);
        items.push(String::from_str(one));
        at += 1;
    }
}

impl GameVariant {
    /// The candidate items of this variant.
    pub fn item_pool(&self) -> (items: Vec<String>)
        ensures
            texts(items@) == pool(*self),
    {
        let mut items: Vec<String> = Vec::new();
        match self {
            GameVariant::Numbers => {
                proof {
                    reveal_strlit("123456789");
                }
                push_letters(&mut items, "123456789", '1');
            },
            GameVariant::Letters => {
                proof {
                    reveal_strlit("ABCDEFGHIJKLMNOPQRSTUVWXYZ");
                }
                push_letters(&mut items, "ABCDEFGHIJKLMNOPQRSTUVWXYZ", 'A');
            },
            GameVariant::LetterTeams => {
                proof {
                    reveal_strlit("th");
                    reveal_strlit("sh");
                    reveal_strlit("ch");
                    reveal_strlit("wh");
                    reveal_strlit("ph");
                    reveal_strlit("ng");
                    reveal_strlit("ck");
                    reveal_strlit("qu");
                }
                items.push(String::from_str("th"));
                items.push(String::from_str("sh"));
                items.push(String::from_str("ch"));
                items.push(String::from_str("wh"));
                items.push(String::from_str("ph"));
                items.push(String::from_str("ng"));
                items.push(String::from_str("ck"));
                items.push(String::from_str("qu"));
                assert(texts(items@) =~= pool(*self)) by {
                    assert forall|i: int| 0 <= i < 8 implies #[trigger] texts(items@)[i] =~= pool(
                        *self,
                    )[i] by {}
                }
            },
        }
        items
    }
}

} // verus!
