use vstd::prelude::*;

verus! {

/// The screen the front end shows.
#[derive(Debug, Clone, PartialEq)]
pub enum MenuState {
    MainMenu,
    Credits,
    GameSelection,
    /// A game is running; holds the path of its ROM.
    InGame(String),
}

/// A ROM found by the game scanner.
#[derive(Debug, Clone)]
pub struct GameInfo {
    pub name: String,
    pub path: String,
    pub file_size: u64,
    pub is_battery_backed: bool,
    pub is_test_rom: bool,
}

/// Navigation state of the front-end menu. The animation clock and the credits scroll,
/// which are floating point, are kept by the front end itself.
pub struct MenuContext {
    pub current_state: MenuState,
    /// 0 = Start, 1 = Credits.
    pub selected_main_option: usize,
    pub selected_game_index: usize,
    pub games: Vec<GameInfo>,
    pub scroll_offset: usize,
    pub max_visible_games: usize,
    pub debug: bool,
}

/// Index one below `sel`, or `sel` at the top.
pub open spec fn index_up(sel: usize) -> usize {
    if sel > 0 { (sel - 1) as usize } else { sel }
}

impl MenuContext {
    /// The scroll offset after the selection moved up to `sel`: the list scrolls so the
    /// selection stays visible.
    pub open spec fn scroll_after_up(self, sel: usize) -> usize {
        if sel < self.scroll_offset { sel } else { self.scroll_offset }
    }

    /// The scroll offset after the selection moved down to `sel`.
    pub open spec fn scroll_after_down(self, sel: usize) -> usize {
        if sel >= self.scroll_offset + self.max_visible_games {
            (sel + 1 - self.max_visible_games) as usize
        } else {
            self.scroll_offset
        }
    }

    /// Whether Down moves the game selection: it is above the last game.
    pub open spec fn can_move_down(self) -> bool {
        self.selected_game_index + 1 < self.games.len()
    }

    /// Number of games shown from the scroll offset on.
    pub open spec fn visible_count(self) -> int {
        if self.scroll_offset >= self.games.len() {
            0
        } else if self.games.len() - self.scroll_offset < self.max_visible_games {
            self.games.len() - self.scroll_offset
        } else {
            self.max_visible_games as int
        }
    }

    /// The main menu with nothing selected beyond the first entry, no games and room for
    /// twelve games on screen.
    pub fn new_with_debug(debug: bool) -> (r: Self)
        ensures
            r.current_state is MainMenu,
            r.selected_main_option == 0,
            r.selected_game_index == 0,
            r.games@.len() == 0,
            r.scroll_offset == 0,
            r.max_visible_games == 12,
            r.debug == debug,
    {
        MenuContext {
            current_state: MenuState::MainMenu,
            selected_main_option: 0,
            selected_game_index: 0,
            games: Vec::new(),
            scroll_offset: 0,
            max_visible_games: 12,
            debug,
        }
    }

    /// Moves the selection up: on the main menu toward Start, on the game list toward the
    /// first game, scrolling so the selection stays visible.
    pub fn navigate_up(&mut self)
        ensures
            final(self).current_state == old(self).current_state,
            final(self).games == old(self).games,
            final(self).max_visible_games == old(self).max_visible_games,
            final(self).debug == old(self).debug,
            old(self).current_state is MainMenu ==> {
                &&& final(self).selected_main_option == index_up(old(self).selected_main_option)
                &&& final(self).selected_game_index == old(self).selected_game_index
                &&& final(self).scroll_offset == old(self).scroll_offset
            },
            old(self).current_state is GameSelection ==> {
                let sel = index_up(old(self).selected_game_index);
                &&& final(self).selected_main_option == old(self).selected_main_option
                &&& final(self).selected_game_index == sel
                &&& final(self).scroll_offset == if old(self).selected_game_index > 0 {
                    old(self).scroll_after_up(sel)
                } else {
                    old(self).scroll_offset
                }
            },
            !(old(self).current_state is MainMenu) && !(old(self).current_state is GameSelection) ==> {
                &&& final(self).selected_main_option == old(self).selected_main_option
                &&& final(self).selected_game_index == old(self).selected_game_index
                &&& final(self).scroll_offset == old(self).scroll_offset
            },
    {
        match self.current_state {
            MenuState::MainMenu => {
                if self.selected_main_option > 0 {
                    self.selected_main_option = self.selected_main_option - 1;
                }
            },
            MenuState::GameSelection => {
                if self.selected_game_index > 0 {
                    self.selected_game_index = self.selected_game_index - 1;
                    if self.selected_game_index < self.scroll_offset {
                        self.scroll_offset = self.selected_game_index;
                    }
                }
            },
            _ => {},
        }
    }

    /// Moves the selection down: on the main menu toward Credits, on the game list toward
    /// the last game, scrolling so the selection stays visible.
    pub fn navigate_down(&mut self)
        requires
            old(self).current_state is GameSelection && old(self).can_move_down()
                ==> old(self).scroll_offset + old(self).max_visible_games <= usize::MAX,
        ensures
            final(self).current_state == old(self).current_state,
            final(self).games == old(self).games,
            final(self).max_visible_games == old(self).max_visible_games,
            final(self).debug == old(self).debug,
            old(self).current_state is MainMenu ==> {
                &&& final(self).selected_main_option == if old(self).selected_main_option < 1 {
                    (old(self).selected_main_option + 1) as usize
                } else {
                    old(self).selected_main_option
                }
                &&& final(self).selected_game_index == old(self).selected_game_index
                &&& final(self).scroll_offset == old(self).scroll_offset
            },
            old(self).current_state is GameSelection ==> {
                &&& final(self).selected_main_option == old(self).selected_main_option
                &&& old(self).can_move_down() ==> {
                    let sel = (old(self).selected_game_index + 1) as usize;
                    &&& final(self).selected_game_index == sel
                    &&& final(self).scroll_offset == old(self).scroll_after_down(sel)
                }
                &&& !old(self).can_move_down() ==> {
                    &&& final(self).selected_game_index == old(self).selected_game_index
                    &&& final(self).scroll_offset == old(self).scroll_offset
                }
            },
            !(old(self).current_state is MainMenu) && !(old(self).current_state is GameSelection) ==> {
                &&& final(self).selected_main_option == old(self).selected_main_option
                &&& final(self).selected_game_index == old(self).selected_game_index
                &&& final(self).scroll_offset == old(self).scroll_offset
            },
    {
        match self.current_state {
            MenuState::MainMenu => {
                if self.selected_main_option < 1 {
                    self.selected_main_option = self.selected_main_option + 1;
                }
            },
            MenuState::GameSelection => {
                let last = if self.games.len() > 0 { self.games.len() - 1 } else { 0 };
                if self.selected_game_index < last {
                    self.selected_game_index = self.selected_game_index + 1;
                    if self.selected_game_index >= self.scroll_offset + self.max_visible_games {
                        self.scroll_offset = self.selected_game_index + 1 - self.max_visible_games;
                    }
                }
            },
            _ => {},
        }
    }

    /// Confirms the selection. On the main menu, Start opens the game list and Credits the
    /// credits. On the game list, the selected game starts: the state becomes `InGame`
    /// with its path, which is returned. Nothing happens elsewhere.
    pub fn select(&mut self) -> (r: Option<String>)
        ensures
            final(self).selected_main_option == old(self).selected_main_option,
            final(self).selected_game_index == old(self).selected_game_index,
            final(self).games == old(self).games,
            final(self).scroll_offset == old(self).scroll_offset,
            final(self).max_visible_games == old(self).max_visible_games,
            final(self).debug == old(self).debug,
            old(self).current_state is MainMenu ==> r.is_none() && (
                if old(self).selected_main_option == 0 {
                    final(self).current_state is GameSelection
                } else if old(self).selected_main_option == 1 {
                    final(self).current_state is Credits
                } else {
                    final(self).current_state == old(self).current_state
                }),
            old(self).current_state is GameSelection ==> (
                if old(self).selected_game_index < old(self).games.len() {
                    let path = old(self).games@[old(self).selected_game_index as int].path;
                    &&& r == Some(path)
                    &&& final(self).current_state == MenuState::InGame(path)
                } else {
                    r.is_none() && final(self).current_state == old(self).current_state
                }),
            !(old(self).current_state is MainMenu) && !(old(self).current_state is GameSelection)
                ==> r.is_none() && final(self).current_state == old(self).current_state,
    {
        match self.current_state {
            MenuState::MainMenu => {
                if self.selected_main_option == 0 {
                    self.current_state = MenuState::GameSelection;
                } else if self.selected_main_option == 1 {
                    self.current_state = MenuState::Credits;
                }
                None
            },
            MenuState::GameSelection => {
                if self.selected_game_index < self.games.len() {
                    let game_path = self.games[self.selected_game_index].path.clone();
                    self.current_state = MenuState::InGame(game_path.clone());
                    Some(game_path)
                } else {
                    None
                }
            },
            _ => None,
        }
    }

    /// Goes back one screen: credits and the game list return to the main menu, a running
    /// game to the game list.
    pub fn back(&mut self)
        ensures
            *final(self) == (MenuContext {
                current_state: match old(self).current_state {
                    MenuState::Credits => MenuState::MainMenu,
                    MenuState::GameSelection => MenuState::MainMenu,
                    MenuState::InGame(_) => MenuState::GameSelection,
                    MenuState::MainMenu => MenuState::MainMenu,
                },
                ..*old(self)
            }),
    {
        match self.current_state {
            MenuState::Credits => {
                self.current_state = MenuState::MainMenu;
            },
            MenuState::GameSelection => {
                self.current_state = MenuState::MainMenu;
            },
            MenuState::InGame(_) => {
                self.current_state = MenuState::GameSelection;
            },
            _ => {},
        }
    }

    /// Leaves a running game for the game list.
    pub fn exit_game(&mut self)
        ensures
            *final(self) == (MenuContext {
                current_state: if old(self).current_state is InGame {
                    MenuState::GameSelection
                } else {
                    old(self).current_state
                },
                ..*old(self)
            }),
    {
        if matches!(self.current_state, MenuState::InGame(_)) {
            self.current_state = MenuState::GameSelection;
        }
    }

    /// The selected game, if the selection is inside the list.
    pub fn get_selected_game(&self) -> (r: Option<&GameInfo>)
        ensures
            self.selected_game_index < self.games.len() ==> r == Some(&self.games@[self.selected_game_index as int]),
            self.selected_game_index >= self.games.len() ==> r.is_none(),
    {
        if self.selected_game_index < self.games.len() {
            Some(&self.games[self.selected_game_index])
        } else {
            None
        }
    }

    /// The games on screen with their index in the list: at most `max_visible_games`
    /// of them, from the scroll offset on.
    pub fn get_visible_games(&self) -> (r: Vec<(usize, &GameInfo)>)
        ensures
            r@.len() == self.visible_count(),
            forall|k: int| 0 <= k < r@.len() ==> r@[k].0 == self.scroll_offset + k
                && r@[k].1 == &self.games@[self.scroll_offset + k],
    {
        let mut r: Vec<(usize, &GameInfo)> = Vec::new();
        let len = self.games.len();
        if self.scroll_offset >= len {
            return r;
        }
        let count = if len - self.scroll_offset < self.max_visible_games {
            len - self.scroll_offset
        } else {
            self.max_visible_games
        };
        let mut k: usize = 0;
        while k < count
            invariant
                count == self.visible_count(),
                self.scroll_offset + count <= len,
                len == self.games.len(),
                k <= count,
                r@.len() == k,
                forall|j: int| 0 <= j < k ==> r@[j].0 == self.scroll_offset + j
                    && r@[j].1 == &self.games@[self.scroll_offset + j],
            decreases count - k,
        {
            let i = self.scroll_offset + k;
            r.push((i, &self.games[i]));
            k = k + 1;
        }
        r
    }
}

/// Whether the selected game is on screen.
pub open spec fn selection_visible(m: MenuContext) -> bool {
    m.scroll_offset <= m.selected_game_index < m.scroll_offset + m.max_visible_games
}

/// Moving the game selection up or down keeps it on screen: the list scrolls just enough.
pub proof fn law_selection_stays_visible(m: MenuContext)
    requires
        selection_visible(m),
    ensures
        m.selected_game_index > 0 ==> ({
            let sel = (m.selected_game_index - 1) as usize;
            let s = m.scroll_after_up(sel);
            s <= sel < s + m.max_visible_games
        }),
        m.can_move_down() && m.scroll_offset + m.max_visible_games <= usize::MAX ==> ({
            let sel = (m.selected_game_index + 1) as usize;
            let s = m.scroll_after_down(sel);
            s <= sel < s + m.max_visible_games
        }),
{
}

} // verus!
