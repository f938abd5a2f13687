//! The state behind the on-screen interface: the scrolling messages, the
//! dialogue text, the menu cursor and the inventory cursor.

use vstd::prelude::*;

use crate::utils::game_state_handler::GameState;
use crate::utils::game_state_handler::GameStateHandler;
use crate::utils::game_state_handler::TitleScreenSubState;

verus! {

/// Ticks a message stays on screen.
pub const MESSAGE_TICKS: i32 = 180;

/// Number of inventory slots in one row.
pub const SLOTS_PER_ROW: i32 = 5;

/// The parts the interface is painted from.
#[derive(Debug, Clone, Copy, PartialEq, Eq, Structural)]
pub enum Panel {
    PlayerLife,
    Messages,
    Paused,
    Dialogue,
    TitleMainMenu,
    TitleClassMenu,
    Character,
    Inventory,
}

/// The parts to paint in the given mode, in painting order: during play the
/// life and the messages; when paused or in a dialogue the life and the
/// window of the mode; on the title screen its current page; on the
/// character screen the character sheet and the inventory.
pub open spec fn spec_panels(state: GameStateHandler) -> Seq<Panel> {
    match state.game_state {
        GameState::Play => seq![Panel::PlayerLife, Panel::Messages],
        GameState::Paused => seq![Panel::PlayerLife, Panel::Paused],
        GameState::Dialogue => seq![Panel::PlayerLife, Panel::Dialogue],
        GameState::Title => match state.title_screen_state {
            TitleScreenSubState::MainMenu => seq![Panel::TitleMainMenu],
            TitleScreenSubState::ClassMenu => seq![Panel::TitleClassMenu],
        },
        GameState::Character => seq![Panel::Character, Panel::Inventory],
    }
}

/// How much of a heart is filled.
#[derive(Debug, Clone, Copy, PartialEq, Eq, Structural)]
pub enum Heart {
    Blank,
    Half,
    Full,
}

/// The number of hearts shown for a life of `life` out of `max_life`: one
/// for every two of the greatest life, and no fewer than the life needs.
pub open spec fn spec_heart_count(life: int, max_life: int) -> int {
    let slots = if max_life > 0 {
        max_life / 2
    } else {
        0
    };
    let needed = if life > 0 {
        (life + 1) / 2
    } else {
        0
    };
    if slots >= needed {
        slots
    } else {
        needed
    }
}

/// The heart at place `place`, where every heart stands for two lives.
pub open spec fn spec_heart(life: int, place: int) -> Heart {
    if life >= 2 * place + 2 {
        Heart::Full
    } else if life == 2 * place + 1 {
        Heart::Half
    } else {
        Heart::Blank
    }
}

/// The hearts that show a life of `life` out of `max_life`, from left to
/// right.
pub fn hearts(life: i32, max_life: i32) -> (shown: Vec<Heart>)
    ensures
        shown@.len() == spec_heart_count(life as int, max_life as int),
        forall|place: int|
            0 <= place < shown@.len() ==> #[trigger] shown@[place] == spec_heart(
                life as int,
                place,
            ),
{
    let slots: i64 = if max_life > 0 { max_life as i64 / 2 } else { 0 };
    let needed: i64 = if life > 0 { (life as i64 + 1) / 2 } else { 0 };
    let count: i64 = if slots >= needed { slots } else { needed };
    let mut shown: Vec<Heart> = Vec::new();
    let mut place: i64 = 0;
    while place < count
        invariant
            0 <= place <= count,
            count <= 0x4000_0000,
            shown@.len() == place,
            forall|j: int| 0 <= j < place ==> #[trigger] shown@[j] == spec_heart(life as int, j),
        decreases count - place,
    {
        let heart: Heart = if life as i64 >= 2 * place + 2 {
            Heart::Full
        } else if life as i64 == 2 * place + 1 {
            Heart::Half
        } else {
            Heart::Blank
        };
        shown.push(heart);
        place = place + 1;
    }
    shown
}

/// A line of text shown for a while, with the ticks it has been shown.
#[derive(Debug, Clone)]
pub struct Message {
    pub message: String,
    pub counter: i32,
}

/// The state of the on-screen interface.
#[derive(Debug)]
pub struct UIHandler {
    pub message_on: bool,
    pub messages: Vec<Message>,
    pub game_finished: bool,
    pub current_dialogue: String,
    pub command_num: i8,
    pub slot_col: i32,
    pub slot_row: i32,
}

/// The messages that are still shown one tick later, each one tick older:
/// a message leaves once it has been shown for more than `MESSAGE_TICKS`.
pub open spec fn spec_aged(messages: Seq<Message>) -> Seq<Message>
    decreases messages.len(),
{
    if messages.len() == 0 {
        Seq::empty()
    } else {
        let rest = spec_aged(messages.drop_last());
        let last = messages.last();
        if last.counter + 1 > MESSAGE_TICKS {
            rest
        } else {
            rest.push(Message { counter: (last.counter + 1) as i32, ..last })
        }
    }
}

impl UIHandler {
    /// No message has been shown for longer than a message lasts, and the
    /// inventory cursor is at a slot.
    pub open spec fn wf(self) -> bool {
        &&& forall|i: int|
            0 <= i < self.messages@.len() ==> 0 <= (#[trigger] self.messages@[i]).counter
                <= MESSAGE_TICKS
        &&& 0 <= self.slot_col < SLOTS_PER_ROW
        &&& 0 <= self.slot_row < 4
    }

    /// An interface with no message, no dialogue and every cursor at its
    /// first position.
    pub fn new() -> (ui: UIHandler)
        ensures
            !ui.message_on,
            ui.messages@.len() == 0,
            !ui.game_finished,
            ui.current_dialogue@.len() == 0,
            ui.command_num == 0,
            ui.slot_col == 0,
            ui.slot_row == 0,
            ui.wf(),
    {
        UIHandler {
            message_on: false,
            messages: Vec::new(),
            game_finished: false,
            current_dialogue: String::new(),
            command_num: 0,
            slot_col: 0,
            slot_row: 0,
        }
    }

    /// The parts to paint in the given mode, in painting order.
    pub fn draw(&self, game_state_handler: &GameStateHandler) -> (panels: Vec<Panel>)
        ensures
            panels@ == spec_panels(*game_state_handler),
    {
        let mut panels: Vec<Panel> = Vec::new();
        match game_state_handler.game_state {
            GameState::Play => {
                panels.push(Panel::PlayerLife);
                panels.push(Panel::Messages);
            },
            GameState::Paused => {
                panels.push(Panel::PlayerLife);
                panels.push(Panel::Paused);
            },
            GameState::Dialogue => {
                panels.push(Panel::PlayerLife);
                panels.push(Panel::Dialogue);
            },
            GameState::Title => match game_state_handler.title_screen_state {
                TitleScreenSubState::MainMenu => {
                    panels.push(Panel::TitleMainMenu);
                },
                TitleScreenSubState::ClassMenu => {
                    panels.push(Panel::TitleClassMenu);
                },
            },
            GameState::Character => {
                panels.push(Panel::Character);
                panels.push(Panel::Inventory);
            },
        }
        assert(panels@ =~= spec_panels(*game_state_handler));
        panels
    }

    /// Whether the interface is sound.
    pub fn is_wf(&self) -> (sound: bool)
        ensures
            sound == self.wf(),
    {
        if !(0 <= self.slot_col && self.slot_col < SLOTS_PER_ROW && 0 <= self.slot_row
            && self.slot_row < 4) {
            return false;
        }
        let mut i: usize = 0;
        while i < self.messages.len()
            invariant
                i <= self.messages@.len(),
                forall|j: int|
                    0 <= j < i ==> 0 <= (#[trigger] self.messages@[j]).counter <= MESSAGE_TICKS,
            decreases self.messages@.len() - i,
        {
            if !(0 <= self.messages[i].counter && self.messages[i].counter <= MESSAGE_TICKS) {
                return false;
            }
            i = i + 1;
        }
        true
    }

    /// Shows `text` as the newest message.
    pub fn add_message(&mut self, text: &str)
        ensures
            final(self).messages@.len() == old(self).messages@.len() + 1,
            final(self).messages@.drop_last() == old(self).messages@,
            final(self).messages@.last().message@ == text@,
            final(self).messages@.last().counter == 0,
            final(self).message_on == old(self).message_on,
            final(self).game_finished == old(self).game_finished,
            final(self).current_dialogue == old(self).current_dialogue,
            final(self).command_num == old(self).command_num,
            final(self).slot_col == old(self).slot_col,
            final(self).slot_row == old(self).slot_row,
            old(self).wf() ==> final(self).wf(),
    {
        self.messages.push(Message { message: text.to_owned(), counter: 0 });
        assert(self.messages@.drop_last() =~= old(self).messages@);
    }

    /// Lets one tick pass for the messages: each grows one tick older and
    /// those shown for more than `MESSAGE_TICKS` leave.
    pub fn upadte(&mut self)
        requires
            old(self).wf(),
        ensures
            final(self).messages@ == spec_aged(old(self).messages@),
            final(self).message_on == old(self).message_on,
            final(self).game_finished == old(self).game_finished,
            final(self).current_dialogue == old(self).current_dialogue,
            final(self).command_num == old(self).command_num,
            final(self).slot_col == old(self).slot_col,
            final(self).slot_row == old(self).slot_row,
            final(self).wf(),
    {
        let mut kept: Vec<Message> = Vec::new();
        let mut i: usize = 0;
        while i < self.messages.len()
            invariant
                i <= self.messages@.len(),
                *self == *old(self),
                self.wf(),
                kept@ == spec_aged(self.messages@.take(i as int)),
                forall|j: int| 0 <= j < kept@.len() ==> 0 <= (#[trigger] kept@[j]).counter
                    <= MESSAGE_TICKS,
            decreases self.messages@.len() - i,
        {
            proof {
                assert(self.messages@.take(i + 1).drop_last() =~= self.messages@.take(i as int));
            }
            if self.messages[i].counter + 1 <= MESSAGE_TICKS {
                let text = self.messages[i].message.clone();
                kept.push(Message { message: text, counter: self.messages[i].counter + 1 });
            }
            i = i + 1;
        }
        proof {
            assert(self.messages@.take(i as int) =~= self.messages@);
        }
        self.messages = kept;
    }

    /// The place in the inventory that the cursor points at, counted row by
    /// row.
    pub fn get_item_index_on_slot(&self) -> (index: usize)
        requires
            self.wf(),
        ensures
            index == self.slot_col + self.slot_row * SLOTS_PER_ROW,
    {
        (self.slot_col + (self.slot_row * 5)) as usize
    }
}

} // verus!
