use vstd::prelude::*;

use crate::text::same_text;

verus! {

/// Whether the title menu is shown or the game is being played.
#[derive(Clone, Copy, PartialEq, Eq, Structural, Debug)]
pub enum GameState {
    Menu,
    Playing,
}

/// The two characters of the game.
#[derive(Clone, Copy, PartialEq, Eq, Structural, Debug)]
pub enum Character {
    Homer,
    Bart,
}

/// The state after the player clicks: a click on the menu starts the game,
/// a click during play leaves the state as it is.
pub open spec fn state_after_click(s: GameState) -> GameState {
    match s {
        GameState::Menu => GameState::Playing,
        GameState::Playing => GameState::Playing,
    }
}

impl GameState {
    /// The state after the player clicks.
    pub fn after_click(self) -> (r: GameState)
        ensures
            r == state_after_click(self),
    {
        match self {
            GameState::Menu => GameState::Playing,
            GameState::Playing => GameState::Playing,
        }
    }
}

/// The cash that `who` earns for finishing chore `job`: Homer 50 for
/// `clean`, 100 for `play`, 150 for `drink`; Bart 60 for `skateboard`, 120 for
/// `slingshot`, 180 for `play_simulator`; nothing for any other chore.
pub open spec fn reward_of(who: Character, job: Seq<char>) -> int {
    match who {
        Character::Homer => if job == "clean"@ {
            50
        } else if job == "play"@ {
            100
        } else if job == "drink"@ {
            150
        } else {
            0
        },
        Character::Bart => if job == "skateboard"@ {
            60
        } else if job == "slingshot"@ {
            120
        } else if job == "play_simulator"@ {
            180
        } else {
            0
        },
    }
}

/// The cash that `who` earns for finishing chore `job`.
pub fn job_reward(who: Character, job: &str) -> (r: i32)
    ensures
        r == reward_of(who, job@),
{
    match who {
        Character::Homer => if same_text(job, "clean") {
            50
        } else if same_text(job, "play") {
            100
        } else if same_text(job, "drink") {
            150
        } else {
            0
        },
        Character::Bart => if same_text(job, "skateboard") {
            60
        } else if same_text(job, "slingshot") {
            120
        } else if same_text(job, "play_simulator") {
            180
        } else {
            0
        },
    }
}

/// The name of the walking animation: from the back when the character moves
/// mostly vertically and upwards, from the front otherwise.
pub open spec fn walk_animation_name(vertical_dominant: bool, moving_down: bool) -> Seq<char> {
    if vertical_dominant && !moving_down {
        "walk_back"@
    } else {
        "walk_front"@
    }
}

/// The walking animation for a step that is mostly vertical (`vertical_dominant`)
/// and goes down the screen (`moving_down`), or not.
pub fn walk_animation(vertical_dominant: bool, moving_down: bool) -> (r: &'static str)
    ensures
        r@ == walk_animation_name(vertical_dominant, moving_down),
{
    if vertical_dominant {
        if moving_down {
            "walk_front"
        } else {
            "walk_back"
        }
    } else {
        "walk_front"
    }
}

/// The discrete state of a game: menu or play, the player's cash, and the
/// chore each character is busy with. Positions, timers and drawing are kept
/// by the caller.
pub struct Chores {
    state: GameState,
    cash: i32,
    homer_job: Option<String>,
    bart_job: Option<String>,
}

/// The state of a game, as plain values.
pub struct ChoresView {
    pub state: GameState,
    pub cash: int,
    pub homer_job: Option<Seq<char>>,
    pub bart_job: Option<Seq<char>>,
}

/// A chore as plain values.
pub open spec fn job_view(job: Option<String>) -> Option<Seq<char>> {
    match job {
        Some(j) => Some(j@),
        None => None,
    }
}

impl View for Chores {
    type V = ChoresView;

    closed spec fn view(&self) -> ChoresView {
        ChoresView {
            state: self.state,
            cash: self.cash as int,
            homer_job: job_view(self.homer_job),
            bart_job: job_view(self.bart_job),
        }
    }
}

/// The chore `who` is busy with.
pub open spec fn job_of(v: ChoresView, who: Character) -> Option<Seq<char>> {
    match who {
        Character::Homer => v.homer_job,
        Character::Bart => v.bart_job,
    }
}

/// `v` with `who` busy with `job` (or free, for `None`).
pub open spec fn with_job(v: ChoresView, who: Character, job: Option<Seq<char>>) -> ChoresView {
    match who {
        Character::Homer => ChoresView { homer_job: job, ..v },
        Character::Bart => ChoresView { bart_job: job, ..v },
    }
}

/// Whether the player may pick `who` to hand out a chore: only during play,
/// and only while `who` is free.
pub open spec fn selectable(v: ChoresView, who: Character) -> bool {
    v.state == GameState::Playing && job_of(v, who) is None
}

/// Whether finishing the chore of `who` now would take the cash past `i32::MAX`.
pub open spec fn pay_overflows(v: ChoresView, who: Character) -> bool {
    job_of(v, who) matches Some(j) && v.cash + reward_of(who, j) > i32::MAX
}

/// The game after one tick for `who`: if `who` is busy and its chore timer
/// has run out (`timer_done`), the chore ends and its reward is paid;
/// otherwise nothing changes.
pub open spec fn after_tick(v: ChoresView, who: Character, timer_done: bool) -> ChoresView {
    match job_of(v, who) {
        Some(j) => if timer_done {
            ChoresView { cash: v.cash + reward_of(who, j), ..with_job(v, who, None) }
        } else {
            v
        },
        None => v,
    }
}

/// What a tick did for one character.
pub enum JobTick {
    /// The character has no chore and may walk about.
    Free,
    /// The character keeps working at this chore.
    Working(String),
    /// The character finished this chore; the cash is now `cash`.
    Completed { job: String, cash: i32 },
}

impl Chores {
    /// The cash is never negative.
    #[verifier::type_invariant]
    closed spec fn cash_not_negative(self) -> bool {
        self.cash >= 0
    }

    /// A new game: on the menu, no cash, nobody busy.
    pub fn new() -> (r: Chores)
        ensures
            r@ == (ChoresView { state: GameState::Menu, cash: 0, homer_job: None, bart_job: None }),
    {
        Chores { state: GameState::Menu, cash: 0, homer_job: None, bart_job: None }
    }

    /// Menu or play.
    pub fn state(&self) -> (r: GameState)
        ensures
            r == self@.state,
    {
        self.state
    }

    /// The player's cash, never negative.
    pub fn cash(&self) -> (r: i32)
        ensures
            r == self@.cash,
            r >= 0,
    {
        proof {
            use_type_invariant(self);
        }
        self.cash
    }

    /// The chore `who` is busy with, if any.
    pub fn current_job(&self, who: Character) -> (r: Option<&str>)
        ensures
            match job_of(self@, who) {
                Some(j) => r matches Some(k) && k@ == j,
                None => r is None,
            },
    {
        let job = match who {
            Character::Homer => &self.homer_job,
            Character::Bart => &self.bart_job,
        };
        match job {
            Some(j) => Some(j.as_str()),
            None => None,
        }
    }

    /// Handles a click of the player (see `state_after_click`).
    pub fn handle_click(&mut self)
        ensures
            final(self)@ == (ChoresView { state: state_after_click(old(self)@.state), ..old(self)@ }),
    {
        proof {
            use_type_invariant(&*self);
        }
        self.state = self.state.after_click();
    }

    /// Whether the player may pick `who` to hand out a chore.
    pub fn is_selectable(&self, who: Character) -> (r: bool)
        ensures
            r == selectable(self@, who),
    {
        let busy = match who {
            Character::Homer => self.homer_job.is_some(),
            Character::Bart => self.bart_job.is_some(),
        };
        self.state == GameState::Playing && !busy
    }

    /// Starts chore `job_name` for `who`, in place of any chore it had.
    pub fn assign_job(&mut self, who: Character, job_name: &str)
        ensures
            final(self)@ == with_job(old(self)@, who, Some(job_name@)),
    {
        proof {
            use_type_invariant(&*self);
        }
        match who {
            Character::Homer => {
                self.homer_job = Some(job_name.to_owned());
            },
            Character::Bart => {
                self.bart_job = Some(job_name.to_owned());
            },
        }
    }

    /// One tick for `who`, whose chore timer has (`timer_done`) or has not run
    /// out: finishes the chore and pays its reward in the first case.
    pub fn tick_job(&mut self, who: Character, timer_done: bool) -> (r: JobTick)
        requires
            timer_done ==> !pay_overflows(old(self)@, who),
        ensures
            final(self)@ == after_tick(old(self)@, who, timer_done),
            match job_of(old(self)@, who) {
                Some(j) => if timer_done {
                    r matches JobTick::Completed { job, cash } && job@ == j && cash == final(self)@.cash
                } else {
                    r matches JobTick::Working(k) && k@ == j
                },
                None => r is Free,
            },
    {
        proof {
            use_type_invariant(&*self);
        }
        let mut taken: Option<String> = None;
        if timer_done {
            match who {
                Character::Homer => std::mem::swap(&mut taken, &mut self.homer_job),
                Character::Bart => std::mem::swap(&mut taken, &mut self.bart_job),
            }
        }
        match taken {
            Some(job) => {
                let reward: i32 = job_reward(who, job.as_str());
                self.cash = self.cash + reward;
                JobTick::Completed { job, cash: self.cash }
            },
            None => {
                let current = match who {
                    Character::Homer => &self.homer_job,
                    Character::Bart => &self.bart_job,
                };
                match current {
                    Some(j) => JobTick::Working(j.clone()),
                    None => JobTick::Free,
                }
            },
        }
    }
}

/// The other character.
pub open spec fn other(who: Character) -> Character {
    match who {
        Character::Homer => Character::Bart,
        Character::Bart => Character::Homer,
    }
}

/// A click on the menu starts the game, and once it is playing no operation
/// takes it back to the menu.
pub proof fn lemma_play_is_kept(
    v: ChoresView,
    who: Character,
    job: Option<Seq<char>>,
    timer_done: bool,
)
    ensures
        state_after_click(GameState::Menu) == GameState::Playing,
        v.state == GameState::Playing ==> {
            &&& state_after_click(v.state) == GameState::Playing
            &&& with_job(v, who, job).state == GameState::Playing
            &&& after_tick(v, who, timer_done).state == GameState::Playing
        },
{
}

/// Rewards are never negative, and positive exactly for the chores of the
/// character's own list.
pub proof fn lemma_rewards(who: Character, job: Seq<char>)
    ensures
        reward_of(who, job) >= 0,
        reward_of(who, job) > 0 <==> (match who {
            Character::Homer => job == "clean"@ || job == "play"@ || job == "drink"@,
            Character::Bart => job == "skateboard"@ || job == "slingshot"@ || job == "play_simulator"@,
        }),
{
}

/// The cash never goes down; it goes up by the chore's reward exactly when a
/// busy character's timer runs out.
pub proof fn lemma_cash_only_grows(v: ChoresView, who: Character, timer_done: bool)
    ensures
        after_tick(v, who, timer_done).cash >= v.cash,
        after_tick(v, who, timer_done).cash == v.cash + (match job_of(v, who) {
            Some(j) => if timer_done { reward_of(who, j) } else { 0 },
            None => 0,
        }),
{
    if let Some(j) = job_of(v, who) {
        lemma_rewards(who, j);
    }
}

/// A character that was handed a chore cannot be picked again until the
/// chore is over; when it is over, the character can be picked (during play).
pub proof fn lemma_busy_until_done(v: ChoresView, who: Character, job: Seq<char>, timer_done: bool)
    ensures
        !selectable(with_job(v, who, Some(job)), who),
        after_tick(with_job(v, who, Some(job)), who, timer_done) == if timer_done {
            ChoresView { cash: v.cash + reward_of(who, job), ..with_job(v, who, None) }
        } else {
            with_job(v, who, Some(job))
        },
        timer_done ==> (selectable(after_tick(with_job(v, who, Some(job)), who, true), who)
            <==> v.state == GameState::Playing),
{
}

/// Handing out or ticking the chore of one character leaves the other's
/// chore as it was.
pub proof fn lemma_other_untouched(v: ChoresView, who: Character, job: Option<Seq<char>>, timer_done: bool)
    ensures
        job_of(with_job(v, who, job), other(who)) == job_of(v, other(who)),
        job_of(after_tick(v, who, timer_done), other(who)) == job_of(v, other(who)),
        job_of(with_job(v, who, job), who) == job,
{
}

} // verus!
