//! The terminal client's interaction state machine.
//!
//! The terminal layer owns drawing and the key poll; every decision — mode
//! changes, draft editing, cursor movement, filtering, and which service
//! call to make — is taken here, by [`App::handle_key`], whose behaviour is
//! exactly the transition function [`ui_step`] on the state's model. The
//! caller performs the returned [`UiAction`] and, after any reload, hands
//! the fresh todos back through [`App::load`].

use vstd::prelude::*;

use crate::text::{chars_to_string, str_to_chars, trim_chars, trim_spec};
use crate::todo::{
    CreateModel, CreateTodo, Todo, TodoId, TodoModel, TodoStatus, UpdateModel, UpdateTodo,
};

verus! {

/// What the client is doing: browsing, or drafting a new or changed todo.
#[derive(Clone, Copy, PartialEq, Eq, Structural, Debug)]
pub enum Mode {
    View,
    Create,
    Edit,
}

/// Which todos the list shows.
#[derive(Clone, Copy, PartialEq, Eq, Structural, Debug)]
pub enum Filter {
    All,
    Pending,
    Done,
}

/// Which draft field takes typed characters.
#[derive(Clone, Copy, PartialEq, Eq, Structural, Debug)]
pub enum ActiveField {
    Title,
    Description,
}

/// A key event, as the terminal layer reports it. Keys the client does not
/// react to arrive as `Other`.
#[derive(Clone, Copy, PartialEq, Eq, Structural, Debug)]
pub enum Key {
    Up,
    Down,
    Left,
    Right,
    Enter,
    Esc,
    Tab,
    Backspace,
    Char(char),
    Other,
}

/// One loaded todo as the list shows it.
#[derive(Debug)]
pub struct ListEntry {
    pub id: TodoId,
    pub status: TodoStatus,
    pub title: String,
    pub description: Option<String>,
}

/// Mathematical value of a [`ListEntry`].
pub struct EntryModel {
    pub id: u128,
    pub status: TodoStatus,
    pub title: Seq<char>,
    pub description: Option<Seq<char>>,
}

impl View for ListEntry {
    type V = EntryModel;

    open spec fn view(&self) -> EntryModel {
        EntryModel {
            id: self.id.0,
            status: self.status,
            title: self.title@,
            description: self.description.deep_view(),
        }
    }
}

impl DeepView for ListEntry {
    type V = EntryModel;

    open spec fn deep_view(&self) -> EntryModel {
        self.view()
    }
}

/// What the terminal layer must do after a key was handled: nothing, leave,
/// re-fetch the list, or make one service call and then re-fetch.
#[derive(Debug)]
pub enum UiAction {
    Continue,
    Quit,
    Reload,
    CreateThenReload(CreateTodo),
    UpdateThenReload(TodoId, UpdateTodo),
    DeleteThenReload(TodoId),
}

/// Mathematical value of a [`UiAction`].
pub enum ActionModel {
    Continue,
    Quit,
    Reload,
    CreateThenReload(CreateModel),
    UpdateThenReload(u128, UpdateModel),
    DeleteThenReload(u128),
}

impl View for UiAction {
    type V = ActionModel;

    open spec fn view(&self) -> ActionModel {
        match self {
            UiAction::Continue => ActionModel::Continue,
            UiAction::Quit => ActionModel::Quit,
            UiAction::Reload => ActionModel::Reload,
            UiAction::CreateThenReload(c) => ActionModel::CreateThenReload(c@),
            UiAction::UpdateThenReload(id, u) => ActionModel::UpdateThenReload(id.0, u@),
            UiAction::DeleteThenReload(id) => ActionModel::DeleteThenReload(id.0),
        }
    }
}

/// The client state: the loaded todos, the navigation cursor over the
/// filtered view, the mode, and the draft fields.
#[derive(Debug)]
pub struct App {
    pub items: Vec<ListEntry>,
    pub selected: usize,
    pub mode: Mode,
    pub filter: Filter,
    pub filtered_indices: Vec<usize>,
    pub field: ActiveField,
    pub draft_title: Vec<char>,
    pub draft_desc: Vec<char>,
}

/// Mathematical value of an [`App`].
pub struct AppModel {
    pub items: Seq<EntryModel>,
    pub selected: int,
    pub mode: Mode,
    pub filter: Filter,
    pub filtered: Seq<int>,
    pub field: ActiveField,
    pub draft_title: Seq<char>,
    pub draft_desc: Seq<char>,
}

impl View for App {
    type V = AppModel;

    open spec fn view(&self) -> AppModel {
        AppModel {
            items: self.items.deep_view(),
            selected: self.selected as int,
            mode: self.mode,
            filter: self.filter,
            filtered: self.filtered_indices@.map_values(|u: usize| u as int),
            field: self.field,
            draft_title: self.draft_title@,
            draft_desc: self.draft_desc@,
        }
    }
}

/// Whether the filter lets a todo of status `s` through.
pub open spec fn matches_filter(f: Filter, s: TodoStatus) -> bool {
    match f {
        Filter::All => true,
        Filter::Pending => s is Pending,
        Filter::Done => s is Done,
    }
}

/// The positions, in increasing order, of the items the filter lets through.
pub open spec fn filter_indices(items: Seq<EntryModel>, f: Filter) -> Seq<int>
    decreases items.len(),
{
    if items.len() == 0 {
        Seq::empty()
    } else {
        let prefix = filter_indices(items.drop_last(), f);
        if matches_filter(f, items.last().status) {
            prefix.push(items.len() - 1)
        } else {
            prefix
        }
    }
}

/// The next filter in the cycle `All -> Pending -> Done -> All`.
pub open spec fn next_filter(f: Filter) -> Filter {
    match f {
        Filter::All => Filter::Pending,
        Filter::Pending => Filter::Done,
        Filter::Done => Filter::All,
    }
}

/// The status a confirmed selection is switched to.
pub open spec fn toggle_status(s: TodoStatus) -> TodoStatus {
    match s {
        TodoStatus::Pending => TodoStatus::Done,
        TodoStatus::Done => TodoStatus::Pending,
    }
}

/// The cursor clamped into the bounds of a filtered view of length `len`:
/// none (position zero) when the view is empty, the last position when it
/// overflowed, unchanged otherwise.
pub open spec fn clamp_selected(sel: int, len: int) -> int {
    if len == 0 {
        0
    } else if sel >= len {
        len - 1
    } else {
        sel
    }
}

/// The state after the filtered view was recomputed from the items and the
/// filter, with the cursor clamped into bounds.
pub open spec fn recompute_model(m: AppModel) -> AppModel {
    let fi = filter_indices(m.items, m.filter);
    AppModel {
        items: m.items,
        selected: clamp_selected(m.selected, fi.len() as int),
        mode: m.mode,
        filter: m.filter,
        filtered: fi,
        field: m.field,
        draft_title: m.draft_title,
        draft_desc: m.draft_desc,
    }
}

/// One loaded todo, as the list will show it.
pub open spec fn entry_of_todo(t: TodoModel) -> EntryModel {
    EntryModel { id: t.id, status: t.status, title: t.title, description: t.description }
}

/// The state after a fresh list of todos was loaded.
pub open spec fn load_model(m: AppModel, ts: Seq<TodoModel>) -> AppModel {
    recompute_model(
        AppModel {
            items: ts.map_values(|t: TodoModel| entry_of_todo(t)),
            selected: m.selected,
            mode: m.mode,
            filter: m.filter,
            filtered: m.filtered,
            field: m.field,
            draft_title: m.draft_title,
            draft_desc: m.draft_desc,
        },
    )
}

/// The entry the navigation cursor rests on; meaningful only when the
/// filtered view is nonempty.
pub open spec fn sel_entry(m: AppModel) -> EntryModel {
    m.items[m.filtered[m.selected]]
}

/// The state after leaving a draft: back to browsing, drafts discarded.
pub open spec fn close_to_view(m: AppModel) -> AppModel {
    AppModel {
        items: m.items,
        selected: m.selected,
        mode: Mode::View,
        filter: m.filter,
        filtered: m.filtered,
        field: m.field,
        draft_title: Seq::empty(),
        draft_desc: Seq::empty(),
    }
}

/// The state with the draft fields replaced.
pub open spec fn with_drafts(m: AppModel, t: Seq<char>, d: Seq<char>) -> AppModel {
    AppModel {
        items: m.items,
        selected: m.selected,
        mode: m.mode,
        filter: m.filter,
        filtered: m.filtered,
        field: m.field,
        draft_title: t,
        draft_desc: d,
    }
}

/// The other draft field.
pub open spec fn toggle_field(f: ActiveField) -> ActiveField {
    match f {
        ActiveField::Title => ActiveField::Description,
        ActiveField::Description => ActiveField::Title,
    }
}

/// The transition of the keys that edit a draft, shared by the `Create` and
/// `Edit` modes: leave on escape, type and erase in the focused field,
/// switch focus on tab; navigation keys are suppressed while editing.
pub open spec fn draft_key_step(m: AppModel, key: Key) -> (AppModel, ActionModel) {
    match key {
        Key::Esc => (close_to_view(m), ActionModel::Continue),
        Key::Backspace => (
            match m.field {
                ActiveField::Title => with_drafts(
                    m,
                    if m.draft_title.len() > 0 {
                        m.draft_title.drop_last()
                    } else {
                        m.draft_title
                    },
                    m.draft_desc,
                ),
                ActiveField::Description => with_drafts(
                    m,
                    m.draft_title,
                    if m.draft_desc.len() > 0 {
                        m.draft_desc.drop_last()
                    } else {
                        m.draft_desc
                    },
                ),
            },
            ActionModel::Continue,
        ),
        Key::Char(c) => (
            match m.field {
                ActiveField::Title => with_drafts(m, m.draft_title.push(c), m.draft_desc),
                ActiveField::Description => with_drafts(m, m.draft_title, m.draft_desc.push(c)),
            },
            ActionModel::Continue,
        ),
        Key::Tab => (
            (AppModel {
                items: m.items,
                selected: m.selected,
                mode: m.mode,
                filter: m.filter,
                filtered: m.filtered,
                field: toggle_field(m.field),
                draft_title: m.draft_title,
                draft_desc: m.draft_desc,
            }),
            ActionModel::Continue,
        ),
        _ => (m, ActionModel::Continue),
    }
}

/// The transition of one key while browsing.
pub open spec fn view_step(m: AppModel, key: Key) -> (AppModel, ActionModel) {
    match key {
        Key::Up => (
            (AppModel {
                items: m.items,
                selected: if m.selected > 0 {
                    m.selected - 1
                } else {
                    m.selected
                },
                mode: m.mode,
                filter: m.filter,
                filtered: m.filtered,
                field: m.field,
                draft_title: m.draft_title,
                draft_desc: m.draft_desc,
            }),
            ActionModel::Continue,
        ),
        Key::Down => (
            (AppModel {
                items: m.items,
                selected: if m.selected + 1 < m.filtered.len() {
                    m.selected + 1
                } else {
                    m.selected
                },
                mode: m.mode,
                filter: m.filter,
                filtered: m.filtered,
                field: m.field,
                draft_title: m.draft_title,
                draft_desc: m.draft_desc,
            }),
            ActionModel::Continue,
        ),
        Key::Enter => if m.filtered.len() > 0 {
            (
                m,
                ActionModel::UpdateThenReload(
                    sel_entry(m).id,
                    (UpdateModel {
                        title: None,
                        description: None,
                        status: Some(toggle_status(sel_entry(m).status)),
                    }),
                ),
            )
        } else {
            (m, ActionModel::Continue)
        },
        Key::Char(c) => if c == 'q' {
            (m, ActionModel::Quit)
        } else if c == 'n' {
            (
                (AppModel {
                    items: m.items,
                    selected: m.selected,
                    mode: Mode::Create,
                    filter: m.filter,
                    filtered: m.filtered,
                    field: ActiveField::Title,
                    draft_title: Seq::empty(),
                    draft_desc: Seq::empty(),
                }),
                ActionModel::Continue,
            )
        } else if c == 'e' {
            if m.filtered.len() > 0 {
                (
                    (AppModel {
                        items: m.items,
                        selected: m.selected,
                        mode: Mode::Edit,
                        filter: m.filter,
                        filtered: m.filtered,
                        field: ActiveField::Title,
                        draft_title: sel_entry(m).title,
                        draft_desc: match sel_entry(m).description {
                            Some(d) => d,
                            None => Seq::empty(),
                        },
                    }),
                    ActionModel::Continue,
                )
            } else {
                (m, ActionModel::Continue)
            }
        } else if c == 'd' {
            if m.filtered.len() > 0 {
                (
                    (AppModel {
                        items: m.items,
                        selected: if m.selected > 0 {
                            m.selected - 1
                        } else {
                            m.selected
                        },
                        mode: m.mode,
                        filter: m.filter,
                        filtered: m.filtered,
                        field: m.field,
                        draft_title: m.draft_title,
                        draft_desc: m.draft_desc,
                    }),
                    ActionModel::DeleteThenReload(sel_entry(m).id),
                )
            } else {
                (m, ActionModel::Continue)
            }
        } else if c == 'f' {
            (
                recompute_model(
                    AppModel {
                        items: m.items,
                        selected: m.selected,
                        mode: m.mode,
                        filter: next_filter(m.filter),
                        filtered: m.filtered,
                        field: m.field,
                        draft_title: m.draft_title,
                        draft_desc: m.draft_desc,
                    },
                ),
                ActionModel::Continue,
            )
        } else {
            (m, ActionModel::Continue)
        },
        _ => (m, ActionModel::Continue),
    }
}

/// The transition of one key while drafting a new todo. Saving calls for a
/// creation only when the trimmed title is nonempty — a trimmed empty
/// description is stored as absence — and always reloads.
pub open spec fn create_step(m: AppModel, key: Key) -> (AppModel, ActionModel) {
    if key is Enter {
        let t = trim_spec(m.draft_title);
        let d = trim_spec(m.draft_desc);
        let act = if t.len() > 0 {
            ActionModel::CreateThenReload(
                (CreateModel {
                    title: t,
                    description: if d.len() == 0 {
                        None
                    } else {
                        Some(d)
                    },
                }),
            )
        } else {
            ActionModel::Reload
        };
        (close_to_view(m), act)
    } else {
        draft_key_step(m, key)
    }
}

/// The transition of one key while editing the selected todo. Saving omits
/// the title when it trims to empty (leave unchanged) but writes a trimmed
/// empty description as an explicit empty string, and always reloads.
pub open spec fn edit_step(m: AppModel, key: Key) -> (AppModel, ActionModel) {
    if key is Enter {
        let act = if m.filtered.len() > 0 {
            let t = trim_spec(m.draft_title);
            let d = trim_spec(m.draft_desc);
            ActionModel::UpdateThenReload(
                sel_entry(m).id,
                (UpdateModel {
                    title: if t.len() == 0 {
                        None
                    } else {
                        Some(t)
                    },
                    description: Some(d),
                    status: None,
                }),
            )
        } else {
            ActionModel::Reload
        };
        (close_to_view(m), act)
    } else {
        draft_key_step(m, key)
    }
}

/// The complete transition function of the client: one key, one step.
pub open spec fn ui_step(m: AppModel, key: Key) -> (AppModel, ActionModel) {
    match m.mode {
        Mode::View => view_step(m, key),
        Mode::Create => create_step(m, key),
        Mode::Edit => edit_step(m, key),
    }
}

/// Well-formedness of the client state: the filtered view is the one its
/// items and filter demand, and the cursor is in its bounds (or zero when
/// the view is empty).
pub open spec fn ui_inv(m: AppModel) -> bool {
    &&& m.filtered == filter_indices(m.items, m.filter)
    &&& (m.filtered.len() == 0 ==> m.selected == 0)
    &&& (m.filtered.len() > 0 ==> 0 <= m.selected < m.filtered.len())
}

/// Every position in a filtered view points into the items, and it lets
/// exactly the matching items through, in increasing order.
pub proof fn lemma_filter_indices_props(items: Seq<EntryModel>, f: Filter)
    ensures
        forall|k: int|
            0 <= k < filter_indices(items, f).len() ==> {
                &&& 0 <= #[trigger] filter_indices(items, f)[k] < items.len()
                &&& matches_filter(f, items[filter_indices(items, f)[k]].status)
            },
        forall|k: int, l: int|
            0 <= k < l < filter_indices(items, f).len() ==> filter_indices(items, f)[k]
                < filter_indices(items, f)[l],
        forall|i: int|
            0 <= i < items.len() && matches_filter(f, items[i].status) ==> filter_indices(
                items,
                f,
            ).contains(i),
    decreases items.len(),
{
    if items.len() > 0 {
        let prefix = items.drop_last();
        lemma_filter_indices_props(prefix, f);
        assert forall|i: int|
            0 <= i < items.len() && matches_filter(f, items[i].status) implies filter_indices(
            items,
            f,
        ).contains(i) by {
            if i < items.len() - 1 {
                assert(prefix[i] == items[i]);
                assert(filter_indices(prefix, f).contains(i));
                let k = choose|k: int|
                    0 <= k < filter_indices(prefix, f).len() && filter_indices(prefix, f)[k] == i;
                assert(filter_indices(items, f)[k] == i);
            } else {
                assert(filter_indices(items, f).last() == i);
            }
        }
    }
}

/// Under the `All` filter every position is in the view, in order.
pub proof fn lemma_filter_indices_all(items: Seq<EntryModel>)
    ensures
        filter_indices(items, Filter::All) == Seq::new(items.len(), |i: int| i),
    decreases items.len(),
{
    if items.len() == 0 {
        assert(filter_indices(items, Filter::All) =~= Seq::new(items.len(), |i: int| i));
    } else {
        lemma_filter_indices_all(items.drop_last());
        assert(filter_indices(items, Filter::All) =~= Seq::new(items.len(), |i: int| i));
    }
}

/// Whether the filter lets a todo of status `s` through.
pub fn filter_allows(f: Filter, s: TodoStatus) -> (r: bool)
    ensures
        r == matches_filter(f, s),
{
    match f {
        Filter::All => true,
        Filter::Pending => match s {
            TodoStatus::Pending => true,
            TodoStatus::Done => false,
        },
        Filter::Done => match s {
            TodoStatus::Done => true,
            TodoStatus::Pending => false,
        },
    }
}

impl App {
    /// The initial client state: nothing loaded, browsing, filter `All`.
    pub fn new() -> (a: App)
        ensures
            a@.items == Seq::<EntryModel>::empty(),
            a@.selected == 0,
            a@.mode is View,
            a@.filter is All,
            a@.field is Title,
            a@.draft_title == Seq::<char>::empty(),
            a@.draft_desc == Seq::<char>::empty(),
            ui_inv(a@),
    {
        let a = App {
            items: Vec::new(),
            selected: 0,
            mode: Mode::View,
            filter: Filter::All,
            filtered_indices: Vec::new(),
            field: ActiveField::Title,
            draft_title: Vec::new(),
            draft_desc: Vec::new(),
        };
        proof {
            assert(a@.items =~= Seq::<EntryModel>::empty());
            assert(a@.filtered =~= Seq::<int>::empty());
            assert(a@.filtered =~= filter_indices(a@.items, a@.filter));
            assert(a@.draft_title =~= Seq::<char>::empty());
            assert(a@.draft_desc =~= Seq::<char>::empty());
        }
        a
    }

    /// Recomputes the filtered view from the items and the filter, clamping
    /// the cursor into its bounds.
    pub fn recompute_filtered(&mut self)
        ensures
            final(self)@ == recompute_model(old(self)@),
            ui_inv(final(self)@),
    {
        self.filtered_indices.clear();
        proof {
            assert(self@.filtered =~= filter_indices(self@.items.take(0), self@.filter));
        }
        let mut i: usize = 0;
        while i < self.items.len()
            invariant
                i <= self.items.len(),
                self.items == old(self).items,
                self.selected == old(self).selected,
                self.mode == old(self).mode,
                self.filter == old(self).filter,
                self.field == old(self).field,
                self.draft_title == old(self).draft_title,
                self.draft_desc == old(self).draft_desc,
                self@.filtered == filter_indices(self@.items.take(i as int), self@.filter),
            decreases self.items.len() - i,
        {
            let keep = filter_allows(self.filter, self.items[i].status);
            proof {
                assert(self@.items.take(i as int + 1).drop_last() =~= self@.items.take(i as int));
                assert(self@.items.take(i as int + 1).last() == self@.items[i as int]);
            }
            if keep {
                self.filtered_indices.push(i);
                proof {
                    assert(self@.filtered =~= filter_indices(
                        old(self)@.items.take(i as int),
                        self@.filter,
                    ).push(i as int));
                }
            }
            i += 1;
        }
        proof {
            assert(self@.items.take(self.items.len() as int) =~= self@.items);
        }
        let len = self.filtered_indices.len();
        if len == 0 {
            self.selected = 0;
        } else if self.selected >= len {
            self.selected = len - 1;
        }
        proof {
            assert(final(self)@ == recompute_model(old(self)@));
        }
    }

    /// Replaces the loaded items with the given todos and recomputes the
    /// filtered view.
    pub fn load(&mut self, todos: Vec<Todo>)
        ensures
            final(self)@ == load_model(old(self)@, todos.deep_view()),
            ui_inv(final(self)@),
    {
        let mut entries: Vec<ListEntry> = Vec::new();
        let mut i: usize = 0;
        while i < todos.len()
            invariant
                i <= todos.len(),
                entries@.len() == i,
                forall|k: int|
                    0 <= k < i ==> #[trigger] entries@[k]@ == entry_of_todo(
                        todos.deep_view()[k],
                    ),
            decreases todos.len() - i,
        {
            let t = todos[i].clone();
            entries.push(
                ListEntry { id: t.id, status: t.status, title: t.title, description: t.description },
            );
            proof {
                assert(entries@[i as int]@ == entry_of_todo(todos.deep_view()[i as int]));
            }
            i += 1;
        }
        proof {
            assert(entries.deep_view() =~= todos.deep_view().map_values(
                |t: TodoModel| entry_of_todo(t),
            ));
        }
        self.items = entries;
        self.recompute_filtered();
    }

    /// The position, among the items, of the entry the cursor rests on.
    fn selected_item_index(&self) -> (idx: usize)
        requires
            ui_inv(self@),
            self@.filtered.len() > 0,
        ensures
            idx < self.items.len(),
            idx as int == self@.filtered[self@.selected],
    {
        proof {
            lemma_filter_indices_props(self@.items, self@.filter);
            assert(self@.filtered == filter_indices(self@.items, self@.filter));
            assert(0 <= filter_indices(self@.items, self@.filter)[self@.selected]
                < self@.items.len());
        }
        self.filtered_indices[self.selected]
    }

    /// Reacts to one key while browsing.
    fn handle_view_key(&mut self, key: Key) -> (a: UiAction)
        requires
            old(self).mode is View,
            ui_inv(old(self)@),
        ensures
            ui_inv(final(self)@),
            (final(self)@, a@) == view_step(old(self)@, key),
    {
        match key {
            Key::Up => {
                if self.selected > 0 {
                    self.selected = self.selected - 1;
                }
                UiAction::Continue
            },
            Key::Down => {
                let len = self.filtered_indices.len();
                proof {
                    if len > 0 {
                        assert(self@.selected < len as int);
                    } else {
                        assert(self@.selected == 0);
                    }
                }
                if self.selected + 1 < len {
                    self.selected = self.selected + 1;
                }
                UiAction::Continue
            },
            Key::Enter => {
                if self.filtered_indices.len() > 0 {
                    let idx = self.selected_item_index();
                    let entry_id = self.items[idx].id;
                    let new_status = toggle(self.items[idx].status);
                    UiAction::UpdateThenReload(
                        entry_id,
                        UpdateTodo { title: None, description: None, status: Some(new_status) },
                    )
                } else {
                    UiAction::Continue
                }
            },
            Key::Char(c) => {
                if c == 'q' {
                    UiAction::Quit
                } else if c == 'n' {
                    self.mode = Mode::Create;
                    self.field = ActiveField::Title;
                    self.draft_title.clear();
                    self.draft_desc.clear();
                    UiAction::Continue
                } else if c == 'e' {
                    if self.filtered_indices.len() > 0 {
                        let idx = self.selected_item_index();
                        let new_title = str_to_chars(self.items[idx].title.as_str());
                        let new_desc = match &self.items[idx].description {
                            Some(d) => str_to_chars(d.as_str()),
                            None => Vec::new(),
                        };
                        self.mode = Mode::Edit;
                        self.field = ActiveField::Title;
                        self.draft_title = new_title;
                        self.draft_desc = new_desc;
                    }
                    UiAction::Continue
                } else if c == 'd' {
                    if self.filtered_indices.len() > 0 {
                        let idx = self.selected_item_index();
                        let entry_id = self.items[idx].id;
                        if self.selected > 0 {
                            self.selected = self.selected - 1;
                        }
                        UiAction::DeleteThenReload(entry_id)
                    } else {
                        UiAction::Continue
                    }
                } else if c == 'f' {
                    self.filter = match self.filter {
                        Filter::All => Filter::Pending,
                        Filter::Pending => Filter::Done,
                        Filter::Done => Filter::All,
                    };
                    self.recompute_filtered();
                    UiAction::Continue
                } else {
                    UiAction::Continue
                }
            },
            _ => UiAction::Continue,
        }
    }

    /// Erases or types one character in the focused draft field, or moves
    /// the focus; shared by the `Create` and `Edit` modes.
    fn handle_draft_key(&mut self, key: Key) -> (a: UiAction)
        ensures
            (final(self)@, a@) == draft_key_step(old(self)@, key),
            final(self)@.items == old(self)@.items,
            final(self)@.filtered == old(self)@.filtered,
            final(self)@.selected == old(self)@.selected,
            final(self)@.filter == old(self)@.filter,
    {
        match key {
            Key::Esc => {
                self.mode = Mode::View;
                self.draft_title.clear();
                self.draft_desc.clear();
                UiAction::Continue
            },
            Key::Backspace => {
                match self.field {
                    ActiveField::Title => {
                        self.draft_title.pop();
                    },
                    ActiveField::Description => {
                        self.draft_desc.pop();
                    },
                }
                UiAction::Continue
            },
            Key::Char(c) => {
                match self.field {
                    ActiveField::Title => self.draft_title.push(c),
                    ActiveField::Description => self.draft_desc.push(c),
                }
                UiAction::Continue
            },
            Key::Tab => {
                self.field = match self.field {
                    ActiveField::Title => ActiveField::Description,
                    ActiveField::Description => ActiveField::Title,
                };
                UiAction::Continue
            },
            _ => UiAction::Continue,
        }
    }

    /// Reacts to one key while drafting a new todo.
    fn handle_create_key(&mut self, key: Key) -> (a: UiAction)
        requires
            old(self).mode is Create,
            ui_inv(old(self)@),
        ensures
            ui_inv(final(self)@),
            (final(self)@, a@) == create_step(old(self)@, key),
    {
        match key {
            Key::Enter => {
                let t = trim_chars(&self.draft_title);
                let d = trim_chars(&self.draft_desc);
                let act = if t.len() > 0 {
                    let description = if d.len() == 0 {
                        None
                    } else {
                        Some(chars_to_string(&d))
                    };
                    UiAction::CreateThenReload(
                        CreateTodo { title: chars_to_string(&t), description },
                    )
                } else {
                    UiAction::Reload
                };
                self.mode = Mode::View;
                self.draft_title.clear();
                self.draft_desc.clear();
                act
            },
            _ => self.handle_draft_key(key),
        }
    }

    /// Reacts to one key while editing the selected todo.
    fn handle_edit_key(&mut self, key: Key) -> (a: UiAction)
        requires
            old(self).mode is Edit,
            ui_inv(old(self)@),
        ensures
            ui_inv(final(self)@),
            (final(self)@, a@) == edit_step(old(self)@, key),
    {
        match key {
            Key::Enter => {
                let act = if self.filtered_indices.len() > 0 {
                    let idx = self.selected_item_index();
                    let entry_id = self.items[idx].id;
                    let t = trim_chars(&self.draft_title);
                    let d = trim_chars(&self.draft_desc);
                    let title = if t.len() == 0 {
                        None
                    } else {
                        Some(chars_to_string(&t))
                    };
                    UiAction::UpdateThenReload(
                        entry_id,
                        UpdateTodo {
                            title,
                            description: Some(chars_to_string(&d)),
                            status: None,
                        },
                    )
                } else {
                    UiAction::Reload
                };
                self.mode = Mode::View;
                self.draft_title.clear();
                self.draft_desc.clear();
                act
            },
            _ => self.handle_draft_key(key),
        }
    }

    /// Reacts to one key: the client's whole behaviour, one step at a time.
    /// The caller performs the returned action and, after any reload, hands
    /// the fresh todos back through [`App::load`].
    pub fn handle_key(&mut self, key: Key) -> (a: UiAction)
        requires
            ui_inv(old(self)@),
        ensures
            ui_inv(final(self)@),
            (final(self)@, a@) == ui_step(old(self)@, key),
    {
        match self.mode {
            Mode::View => self.handle_view_key(key),
            Mode::Create => self.handle_create_key(key),
            Mode::Edit => self.handle_edit_key(key),
        }
    }
}

/// The status a confirmed selection is switched to.
pub fn toggle(s: TodoStatus) -> (r: TodoStatus)
    ensures
        r == toggle_status(s),
{
    match s {
        TodoStatus::Pending => TodoStatus::Done,
        TodoStatus::Done => TodoStatus::Pending,
    }
}

} // verus!
