use vstd::prelude::*;
use vstd::string::*;
use crate::controller::ControllerEvent;
use crate::keyed::str_eq;
use crate::marker::{MarkerEntry, MarkerSet, MarkerType, marker_from_repr, axes_swapped, swap_axes};
use crate::settings::{
    GitHubSource, MarkerAutoPlaceSettings, NeedsUpdate, RemoteState, SquadCondition, clone_opt_string,
    needs_update_text, opt_view,
};

verus! {

/// How an edited marker set is to be saved.
#[derive(Clone, Copy, Debug, PartialEq, Eq, Structural)]
pub enum MarkerSaveMode {
    Create,
    Append,
    Edit,
}

/// The format a new marker file is written in.
#[derive(Clone, Copy, Debug, PartialEq, Eq, Structural)]
pub enum MarkerFiletype {
    File,
    Custom,
}

/// A marker set to save: appended to a file, written to a new file of a
/// format, or replacing the set at an index of a category in a file.
#[derive(Debug)]
pub enum MarkerSaveEvent<P> {
    Append(MarkerSet<P>, String),
    Create(MarkerSet<P>, String, MarkerFiletype),
    Edit(MarkerSet<P>, String, Option<String>, usize),
}

/// A problem that keeps an edited marker set from being saved; each has a
/// translation message.
#[derive(Clone, Copy, Debug, PartialEq, Eq, Structural)]
pub enum MarkerProblem {
    NameEmpty,
    NoTrigger,
    NoCategory,
    MapIdWrong,
    NoPositions,
    FilenameEmpty,
}

impl MarkerProblem {
    /// The identifier of the problem's translated message.
    pub fn message_id(&self) -> (r: &'static str)
        ensures
            r@ == problem_message(*self),
    {
        proof {
            reveal_strlit("name-empty");
            reveal_strlit("no-trigger");
            reveal_strlit("no-category");
            reveal_strlit("map-id-wrong");
            reveal_strlit("no-positions");
            reveal_strlit("filename-empty");
        }
        match self {
            MarkerProblem::NameEmpty => "name-empty",
            MarkerProblem::NoTrigger => "no-trigger",
            MarkerProblem::NoCategory => "no-category",
            MarkerProblem::MapIdWrong => "map-id-wrong",
            MarkerProblem::NoPositions => "no-positions",
            MarkerProblem::FilenameEmpty => "filename-empty",
        }
    }
}

pub open spec fn problem_message(p: MarkerProblem) -> Seq<char> {
    match p {
        MarkerProblem::NameEmpty => "name-empty"@,
        MarkerProblem::NoTrigger => "no-trigger"@,
        MarkerProblem::NoCategory => "no-category"@,
        MarkerProblem::MapIdWrong => "map-id-wrong"@,
        MarkerProblem::NoPositions => "no-positions"@,
        MarkerProblem::FilenameEmpty => "filename-empty"@,
    }
}

/// The editor's input for one marker of a set: its position in the game,
/// once chosen, and its description.
#[derive(Debug)]
pub struct IndividualMarkerState<T> {
    pub position: Option<[T; 3]>,
    pub description: String,
}

impl<T: Copy> IndividualMarkerState<T> {
    /// No position, empty description.
    pub fn default() -> (r: Self)
        ensures
            r.position is None,
            r.description@ == Seq::<char>::empty(),
    {
        IndividualMarkerState { position: None, description: String::new() }
    }

    pub fn set_position(&mut self, pos: [T; 3])
        ensures
            final(self).position == Some(pos),
            final(self).description == old(self).description,
    {
        self.position = Some(pos);
    }

    pub fn set_description(&mut self, desc: String)
        ensures
            final(self).description == desc,
            final(self).position == old(self).position,
    {
        self.description = desc;
    }

    /// The marker entry for marker `marker`, where a position was chosen,
    /// with the position in the form marker files hold (second and third axes
    /// exchanged); an empty description gives no identifier.
    pub fn to_marker_entry(&self, marker: MarkerType) -> (r: Option<MarkerEntry<[T; 3]>>)
        ensures
            r == entry_of(*self, marker),
    {
        let id = if self.description.as_str().unicode_len() == 0 {
            None
        } else {
            Some(self.description.clone())
        };
        match self.position {
            Some(position) => Some(MarkerEntry { marker, id, position: swap_axes(position) }),
            None => None,
        }
    }

    /// The editor inputs for the markers of an existing set, the first
    /// `entries.len()` of the eight filled in, their positions turned back
    /// into game positions.
    pub fn from_marker_entries(entries: Vec<MarkerEntry<[T; 3]>>) -> (r: Vec<IndividualMarkerState<T>>)
        requires
            entries@.len() <= 8,
        ensures
            r@.len() == 8,
            forall|i: int|
                0 <= i < 8 ==> (#[trigger] r@[i]).position == (if i < entries@.len() {
                    Some(axes_swapped(entries@[i].position))
                } else {
                    None
                }),
            forall|i: int|
                0 <= i < 8 ==> (#[trigger] r@[i]).description@ == (if i < entries@.len() {
                    match entries@[i].id {
                        Some(d) => d@,
                        None => Seq::<char>::empty(),
                    }
                } else {
                    Seq::<char>::empty()
                }),
    {
        let mut r: Vec<IndividualMarkerState<T>> = Vec::new();
        let mut i: usize = 0;
        while i < 8
            invariant
                i <= 8,
                entries@.len() <= 8,
                r@.len() == i,
                forall|j: int|
                    0 <= j < i ==> (#[trigger] r@[j]).position == (if j < entries@.len() {
                        Some(axes_swapped(entries@[j].position))
                    } else {
                        None
                    }),
                forall|j: int|
                    0 <= j < i ==> (#[trigger] r@[j]).description@ == (if j < entries@.len() {
                        match entries@[j].id {
                            Some(d) => d@,
                            None => Seq::<char>::empty(),
                        }
                    } else {
                        Seq::<char>::empty()
                    }),
            decreases 8 - i,
        {
            if i < entries.len() {
                let e = &entries[i];
                let description = match &e.id {
                    Some(d) => d.clone(),
                    None => String::new(),
                };
                r.push(IndividualMarkerState { position: Some(swap_axes(e.position)), description });
            } else {
                r.push(IndividualMarkerState::default());
            }
            i = i + 1;
        }
        r
    }
}

/// The entry an editor input gives for `marker`.
pub open spec fn entry_of<T>(s: IndividualMarkerState<T>, marker: MarkerType) -> Option<MarkerEntry<[T; 3]>> {
    match s.position {
        Some(position) => Some(
            MarkerEntry {
                marker,
                id: if s.description@.len() == 0 {
                    None
                } else {
                    Some(s.description)
                },
                position: axes_swapped(position),
            },
        ),
        None => None,
    }
}

/// A choice among text entries, such as the category of a marker set.
#[derive(Debug)]
pub struct ComboInput {
    pub entry: Option<String>,
    pub data: Vec<String>,
}

impl ComboInput {
    pub fn new() -> (r: Self)
        ensures
            r.entry is None,
            r.data@.len() == 0,
    {
        ComboInput { entry: None, data: Vec::new() }
    }

    /// Replaces the entries to choose from.
    pub fn update(&mut self, data: Vec<String>)
        ensures
            final(self).data@ == data@,
            final(self).entry == old(self).entry,
    {
        self.data = data;
    }

    /// The chosen entry.
    pub fn result(&self) -> (r: Option<String>)
        ensures
            r == self.entry,
    {
        clone_opt_string(&self.entry)
    }
}

/// The marker set editor window.
#[derive(Debug)]
pub struct EditMarkerWindowState<T> {
    pub open: bool,
    pub formatted_name: String,
    pub name: String,
    pub description: String,
    pub author: String,
    pub category: ComboInput,
    pub trigger: Option<[T; 3]>,
    pub map_id: i32,
    pub markers: Vec<IndividualMarkerState<T>>,
    pub path: Option<String>,
    pub idx: Option<usize>,
    pub filetype: Option<MarkerFiletype>,
    pub save_mode: Option<MarkerSaveMode>,
    pub original_category: Option<String>,
    pub filenames: Vec<String>,
    pub problems: Vec<MarkerProblem>,
}

/// Whether some marker input has a position.
pub open spec fn has_position<T>(markers: Seq<IndividualMarkerState<T>>) -> bool {
    exists|i: int| 0 <= i < markers.len() && (#[trigger] markers[i]).position is Some
}

/// The problems, in order, that keep the edited set from being saved.
pub open spec fn presave_problems<T>(w: EditMarkerWindowState<T>) -> Seq<MarkerProblem> {
    let a = if w.name@.len() == 0 {
        seq![MarkerProblem::NameEmpty]
    } else {
        Seq::empty()
    };
    let b = if w.trigger is None {
        a.push(MarkerProblem::NoTrigger)
    } else {
        a
    };
    let c = if w.category.entry is None {
        b.push(MarkerProblem::NoCategory)
    } else {
        b
    };
    let d = if w.map_id <= 0 {
        c.push(MarkerProblem::MapIdWrong)
    } else {
        c
    };
    if !has_position(w.markers@) {
        d.push(MarkerProblem::NoPositions)
    } else {
        d
    }
}

/// The entries, in marker order, of the first `n` placeable markers whose
/// inputs have a position.
pub open spec fn set_entries<T>(markers: Seq<IndividualMarkerState<T>>, n: int) -> Seq<MarkerEntry<[T; 3]>>
    decreases n,
{
    if n <= 0 {
        Seq::empty()
    } else {
        let rest = set_entries(markers, n - 1);
        match entry_of(markers[n - 1], marker_from_repr(n as u8)->0) {
            Some(e) => rest.push(e),
            None => rest,
        }
    }
}

/// `s` is the marker set the editor `w` stands for: enabled, with the
/// editor's name, description, author, category, map, trigger (in the form
/// marker files hold) and index,
/// no path, and as markers the placeable markers, in order, whose inputs
/// have a position.
pub open spec fn is_edited_set<T>(w: EditMarkerWindowState<T>, s: MarkerSet<[T; 3]>) -> bool {
    &&& w.trigger matches Some(t) && s.trigger == axes_swapped(t)
    &&& s.enabled
    &&& s.category == w.category.entry
    &&& s.markers@ == set_entries(w.markers@, 8)
    &&& s.name == w.name
    &&& s.author == Some(w.author)
    &&& s.map_id == w.map_id as u32
    &&& s.description == w.description
    &&& s.path is None
    &&& s.idx == w.idx
}

/// `r` is the save request of the editor `w`: there is one where it has a
/// trigger, a file and a save mode, and it carries the edited set and, by the
/// mode, creates a new file of the chosen format, appends to the file, or
/// replaces the set it was opened from.
pub open spec fn save_request<T, H>(w: EditMarkerWindowState<T>, r: Option<ControllerEvent<[T; 3], H>>) -> bool {
    &&& r is Some <==> (w.trigger is Some && w.path is Some && w.save_mode is Some)
    &&& r is Some ==> (r matches Some(ControllerEvent::SaveMarker(_)))
    &&& r matches Some(ControllerEvent::SaveMarker(e)) ==> match e {
        MarkerSaveEvent::Create(s, p, ft) => w.save_mode == Some(MarkerSaveMode::Create) && w.path == Some(p)
            && w.filetype == Some(ft) && is_edited_set(w, s),
        MarkerSaveEvent::Append(s, p) => w.save_mode == Some(MarkerSaveMode::Append) && w.path == Some(p)
            && is_edited_set(w, s),
        MarkerSaveEvent::Edit(s, p, oc, idx) => w.save_mode == Some(MarkerSaveMode::Edit) && w.path == Some(p)
            && oc == w.original_category && w.idx == Some(idx) && is_edited_set(w, s),
    }
}

/// What the user does in the marker editor in one frame.
#[derive(Debug)]
pub enum EditWindowAction {
    /// The window's save button, with the title the save popup gets: the
    /// translation of the editor's `save_title_id` for the set's name.
    Save(String),
    /// A save mode picked in the save popup.
    PickSaveMode(MarkerSaveMode),
    /// A format picked for a new file.
    PickFiletype(MarkerFiletype),
    /// The file named: typed for a new file, picked for appending.
    PickFile(String),
    /// The popup's button that asks for the list of files again.
    RefreshFiles,
    /// The popup's save button.
    ConfirmSave,
    /// The popup's close button, which closes the editor too.
    ClosePopup,
    /// The popup's cancel button.
    CancelPopup,
    /// The window's own close button.
    CloseWindow,
}

/// What the host is to do after an action in the marker editor.
pub struct EditWindowReply<T, H> {
    pub open_popup: bool,
    pub close_popup: bool,
    pub event: Option<ControllerEvent<[T; 3], H>>,
}

/// How the editor meets an action: `pre` before, `post` after, `r` the reply.
pub open spec fn edit_acted<T, H>(
    pre: EditMarkerWindowState<T>,
    post: EditMarkerWindowState<T>,
    action: EditWindowAction,
    r: EditWindowReply<T, H>,
) -> bool {
    let quiet = !r.open_popup && !r.close_popup && r.event is None;
    if !pre.open {
        post == pre && quiet
    } else {
        match action {
            EditWindowAction::Save(title) => {
                &&& post == (EditMarkerWindowState { problems: post.problems, formatted_name: post.formatted_name, ..pre })
                &&& post.problems@ == presave_problems(pre)
                &&& post.formatted_name == (if presave_problems(pre).len() == 0 {
                    title
                } else {
                    pre.formatted_name
                })
                &&& r.open_popup == (presave_problems(pre).len() == 0)
                &&& !r.close_popup && r.event is None
            },
            EditWindowAction::PickSaveMode(m) => {
                &&& quiet
                &&& if pre.save_mode != Some(MarkerSaveMode::Edit) && m == MarkerSaveMode::Create {
                    &&& post == (EditMarkerWindowState { save_mode: Some(m), path: post.path, ..pre })
                    &&& post.path matches Some(p) && p@.len() == 0
                } else if pre.save_mode != Some(MarkerSaveMode::Edit) && m == MarkerSaveMode::Append {
                    post == (EditMarkerWindowState { save_mode: Some(m), path: None, ..pre })
                } else {
                    post == pre
                }
            },
            EditWindowAction::PickFiletype(ft) => {
                &&& quiet
                &&& post == (if pre.save_mode == Some(MarkerSaveMode::Create) {
                    EditMarkerWindowState { filetype: Some(ft), ..pre }
                } else {
                    pre
                })
            },
            EditWindowAction::PickFile(name) => {
                &&& quiet
                &&& post == (if pre.save_mode == Some(MarkerSaveMode::Create) || pre.save_mode == Some(
                    MarkerSaveMode::Append,
                ) {
                    EditMarkerWindowState { path: Some(name), ..pre }
                } else {
                    pre
                })
            },
            EditWindowAction::RefreshFiles => {
                &&& post == pre
                &&& !r.open_popup && !r.close_popup
                &&& if pre.save_mode == Some(MarkerSaveMode::Append) {
                    r.event matches Some(e) && e is GetMarkerPaths
                } else {
                    r.event is None
                }
            },
            EditWindowAction::ConfirmSave => {
                &&& !r.open_popup
                &&& match pre.save_mode {
                    Some(MarkerSaveMode::Edit) => {
                        &&& post == (EditMarkerWindowState { open: false, ..pre })
                        &&& r.close_popup
                        &&& save_request(pre, r.event)
                    },
                    Some(_) => {
                        let ok = pre.path matches Some(p) && p@.len() > 0;
                        &&& post == (EditMarkerWindowState { open: if ok { false } else { pre.open }, problems: post.problems, ..pre })
                        &&& post.problems@ == (if ok {
                            Seq::<MarkerProblem>::empty()
                        } else {
                            seq![MarkerProblem::FilenameEmpty]
                        })
                        &&& r.close_popup == ok
                        &&& ok ==> save_request(pre, r.event)
                        &&& !ok ==> r.event is None
                    },
                    None => post == pre && quiet,
                }
            },
            EditWindowAction::ClosePopup => {
                &&& post == (EditMarkerWindowState { open: false, ..pre })
                &&& !r.open_popup && r.close_popup && r.event is None
            },
            EditWindowAction::CancelPopup => {
                &&& post == pre
                &&& !r.open_popup && r.close_popup && r.event is None
            },
            EditWindowAction::CloseWindow => {
                &&& post == (EditMarkerWindowState { open: false, ..pre })
                &&& quiet
            },
        }
    }
}

impl<T: Copy> EditMarkerWindowState<T> {
    /// A closed, empty editor.
    pub fn new() -> (r: Self)
        ensures
            !r.open,
            r.name@.len() == 0,
            r.author@.len() == 0,
            r.description@.len() == 0,
            r.category.entry is None,
            r.trigger is None,
            r.map_id == 0,
            r.markers@.len() == 8,
            forall|i: int| 0 <= i < 8 ==> (#[trigger] r.markers@[i]).position is None,
            r.path is None,
            r.idx is None,
            r.save_mode is None,
            r.problems@.len() == 0,
            r.formatted_name@.len() == 0,
            r.filetype is None,
            r.original_category is None,
            r.filenames@.len() == 0,
            r.category.data@.len() == 0,
            forall|i: int| 0 <= i < 8 ==> (#[trigger] r.markers@[i]).description@.len() == 0,
    {
        let mut markers: Vec<IndividualMarkerState<T>> = Vec::new();
        let mut i: usize = 0;
        while i < 8
            invariant
                i <= 8,
                markers@.len() == i,
                forall|j: int| 0 <= j < i ==> (#[trigger] markers@[j]).position is None,
                forall|j: int| 0 <= j < i ==> (#[trigger] markers@[j]).description@.len() == 0,
            decreases 8 - i,
        {
            markers.push(IndividualMarkerState::default());
            i = i + 1;
        }
        EditMarkerWindowState {
            open: false,
            formatted_name: String::new(),
            name: String::new(),
            trigger: None,
            category: ComboInput::new(),
            description: String::new(),
            map_id: 0,
            author: String::new(),
            markers,
            idx: None,
            save_mode: None,
            path: None,
            original_category: None,
            filetype: None,
            filenames: Vec::new(),
            problems: Vec::new(),
        }
    }

    /// What keeps the set from being saved: no name, no trigger, no category,
    /// a map identifier that is not positive, no marker with a position.
    pub fn validate_presave(&self) -> (r: Vec<MarkerProblem>)
        ensures
            r@ == presave_problems(*self),
    {
        let mut conditions: Vec<MarkerProblem> = Vec::new();
        if self.name.as_str().unicode_len() == 0 {
            conditions.push(MarkerProblem::NameEmpty);
        }
        if self.trigger.is_none() {
            conditions.push(MarkerProblem::NoTrigger);
        }
        if self.category.entry.is_none() {
            conditions.push(MarkerProblem::NoCategory);
        }
        if self.map_id <= 0 {
            conditions.push(MarkerProblem::MapIdWrong);
        }
        let mut any = false;
        let n = self.markers.len();
        let mut i: usize = 0;
        while i < n
            invariant
                n == self.markers@.len(),
                i <= n,
                any == exists|j: int| 0 <= j < i && (#[trigger] self.markers@[j]).position is Some,
            decreases n - i,
        {
            if self.markers[i].position.is_some() {
                any = true;
            }
            i = i + 1;
        }
        if !any {
            conditions.push(MarkerProblem::NoPositions);
        }
        proof {
            assert(conditions@ =~= presave_problems(*self));
        }
        conditions
    }

    /// What keeps the set from being written: no file name, or an empty one.
    pub fn validate_save(&self) -> (r: Vec<MarkerProblem>)
        ensures
            r@ == (if self.path matches Some(p) && p@.len() > 0 {
                Seq::<MarkerProblem>::empty()
            } else {
                seq![MarkerProblem::FilenameEmpty]
            }),
    {
        let mut conditions: Vec<MarkerProblem> = Vec::new();
        match &self.path {
            Some(path) => {
                if path.as_str().unicode_len() == 0 {
                    conditions.push(MarkerProblem::FilenameEmpty);
                }
            },
            None => conditions.push(MarkerProblem::FilenameEmpty),
        }
        assert(conditions@ =~= (if self.path matches Some(p) && p@.len() > 0 {
            Seq::<MarkerProblem>::empty()
        } else {
            seq![MarkerProblem::FilenameEmpty]
        }));
        conditions
    }

    /// What the validation section shows: a heading where there are problems,
    /// then the problems.
    pub fn draw_validate(&self) -> (r: (bool, Vec<MarkerProblem>))
        ensures
            r.0 == (self.problems@.len() > 0),
            r.1@ == self.problems@,
    {
        let n = self.problems.len();
        let mut shown: Vec<MarkerProblem> = Vec::new();
        let mut i: usize = 0;
        while i < n
            invariant
                n == self.problems@.len(),
                i <= n,
                shown@ == self.problems@.subrange(0, i as int),
            decreases n - i,
        {
            shown.push(self.problems[i]);
            assert(shown@ =~= self.problems@.subrange(0, i + 1));
            i = i + 1;
        }
        assert(shown@ =~= self.problems@);
        (n > 0, shown)
    }

    /// The request for the marker files that can be appended to.
    pub fn request_filenames<H>(&self) -> (r: ControllerEvent<[T; 3], H>)
        ensures
            r is GetMarkerPaths,
    {
        ControllerEvent::GetMarkerPaths
    }

    pub fn set_filenames(&mut self, filenames: Vec<String>)
        ensures
            final(self).filenames@ == filenames@,
    {
        self.filenames = filenames;
    }

    /// Replaces the categories to choose from.
    pub fn category_update(&mut self, categories: Vec<String>)
        ensures
            final(self).category.data@ == categories@,
            final(self).category.entry == old(self).category.entry,
    {
        self.category.update(categories);
    }

    /// The marker set being edited, where it has a trigger: its markers are
    /// the placeable markers, in order, whose inputs have a position.
    pub fn to_marker_set(&self) -> (r: Option<MarkerSet<[T; 3]>>)
        requires
            self.markers@.len() == 8,
        ensures
            r is Some <==> self.trigger is Some,
            r matches Some(s) ==> is_edited_set(*self, s),
    {
        let marker_types = MarkerType::iter_real_values();
        let mut markers: Vec<MarkerEntry<[T; 3]>> = Vec::new();
        let mut i: usize = 0;
        while i < 8
            invariant
                i <= 8,
                self.markers@.len() == 8,
                marker_types@.len() == 8,
                forall|j: int| 0 <= j < 8 ==> Some(#[trigger] marker_types@[j]) == marker_from_repr((j + 1) as u8),
                markers@ == set_entries(self.markers@, i as int),
            decreases 8 - i,
        {
            let k = marker_types[i];
            proof {
                assert(Some(marker_types@[i as int]) == marker_from_repr((i + 1) as u8));
            }
            match self.markers[i].to_marker_entry(k) {
                Some(e) => markers.push(e),
                None => {},
            }
            i = i + 1;
        }
        let trigger = match self.trigger {
            Some(t) => swap_axes(t),
            None => return None,
        };
        Some(
            MarkerSet {
                enabled: true,
                category: self.category.result(),
                markers,
                trigger,
                name: self.name.clone(),
                author: Some(self.author.clone()),
                map_id: self.map_id as u32,
                description: self.description.clone(),
                path: None,
                idx: self.idx,
            },
        )
    }

    /// The save request for the edited set, where it has a trigger, a file
    /// and a save mode: created in a new file of the chosen format, appended,
    /// or replacing the set it was opened from.
    pub fn save_file<H>(&mut self) -> (r: Option<ControllerEvent<[T; 3], H>>)
        requires
            old(self).markers@.len() == 8,
            old(self).trigger is Some && old(self).path is Some ==> {
                &&& old(self).save_mode == Some(MarkerSaveMode::Create) ==> old(self).filetype is Some
                &&& old(self).save_mode == Some(MarkerSaveMode::Edit) ==> old(self).idx is Some
            },
        ensures
            *final(self) == *old(self),
            save_request(*old(self), r),
    {
        let ms = match self.to_marker_set() {
            Some(ms) => ms,
            None => return None,
        };
        let path = match &self.path {
            Some(p) => p.clone(),
            None => return None,
        };
        let evt = match self.save_mode {
            Some(MarkerSaveMode::Create) => match self.filetype {
                Some(ft) => MarkerSaveEvent::Create(ms, path, ft),
                None => return None,
            },
            Some(MarkerSaveMode::Append) => MarkerSaveEvent::Append(ms, path),
            Some(MarkerSaveMode::Edit) => match self.idx {
                Some(idx) => MarkerSaveEvent::Edit(ms, path, clone_opt_string(&self.original_category), idx),
                None => return None,
            },
            None => return None,
        };
        Some(ControllerEvent::SaveMarker(evt))
    }

    /// The message whose translation, for the set's name, titles the save
    /// popup: one for replacing an edited set, one for saving a new one.
    pub fn save_title_id(&self) -> (r: &'static str)
        ensures
            r@ == (if self.save_mode == Some(MarkerSaveMode::Edit) {
                "save-edit-item"@
            } else {
                "save-item"@
            }),
    {
        if self.save_mode == Some(MarkerSaveMode::Edit) {
            "save-edit-item"
        } else {
            "save-item"
        }
    }

    /// Meets one action of the user; a closed editor takes none. The save
    /// button checks the set and, where nothing keeps it from being saved,
    /// titles and opens the save popup. In the
    /// popup, a set opened for editing is saved in place; otherwise a save
    /// mode is picked (a new file, whose name starts empty, or an existing
    /// one, to be picked again), with a format for a new file, and the set is
    /// saved where the file name is not empty. A save closes the editor, as
    /// does the popup's close button.
    pub fn act<H>(&mut self, action: EditWindowAction) -> (r: EditWindowReply<T, H>)
        requires
            old(self).markers@.len() == 8,
            action is ConfirmSave && old(self).trigger is Some && (old(self).path matches Some(p) && p@.len() > 0)
                && old(self).save_mode == Some(MarkerSaveMode::Create) ==> old(self).filetype is Some,
            action is ConfirmSave && old(self).trigger is Some && old(self).path is Some && old(self).save_mode
                == Some(MarkerSaveMode::Edit) ==> old(self).idx is Some,
        ensures
            edit_acted(*old(self), *final(self), action, r),
    {
        let quiet = EditWindowReply { open_popup: false, close_popup: false, event: None };
        if !self.open {
            return quiet;
        }
        match action {
            EditWindowAction::Save(title) => {
                self.problems = self.validate_presave();
                let ok = self.problems.len() == 0;
                if ok {
                    self.formatted_name = title;
                }
                EditWindowReply { open_popup: ok, close_popup: false, event: None }
            },
            EditWindowAction::PickSaveMode(m) => {
                if self.save_mode != Some(MarkerSaveMode::Edit) {
                    match m {
                        MarkerSaveMode::Create => {
                            self.save_mode = Some(m);
                            self.path = Some(String::new());
                        },
                        MarkerSaveMode::Append => {
                            self.save_mode = Some(m);
                            self.path = None;
                        },
                        MarkerSaveMode::Edit => {},
                    }
                }
                quiet
            },
            EditWindowAction::PickFiletype(ft) => {
                if self.save_mode == Some(MarkerSaveMode::Create) {
                    self.filetype = Some(ft);
                }
                quiet
            },
            EditWindowAction::PickFile(name) => {
                if self.save_mode == Some(MarkerSaveMode::Create) || self.save_mode == Some(MarkerSaveMode::Append) {
                    self.path = Some(name);
                }
                quiet
            },
            EditWindowAction::RefreshFiles => {
                if self.save_mode == Some(MarkerSaveMode::Append) {
                    EditWindowReply { open_popup: false, close_popup: false, event: Some(self.request_filenames()) }
                } else {
                    quiet
                }
            },
            EditWindowAction::ConfirmSave => {
                match self.save_mode {
                    Some(MarkerSaveMode::Edit) => {
                        let event = self.save_file();
                        self.open = false;
                        EditWindowReply { open_popup: false, close_popup: true, event }
                    },
                    Some(_) => {
                        self.problems = self.validate_save();
                        if self.problems.len() == 0 {
                            let event = self.save_file();
                            self.open = false;
                            EditWindowReply { open_popup: false, close_popup: true, event }
                        } else {
                            quiet
                        }
                    },
                    None => quiet,
                }
            },
            EditWindowAction::ClosePopup => {
                self.open = false;
                EditWindowReply { open_popup: false, close_popup: true, event: None }
            },
            EditWindowAction::CancelPopup => EditWindowReply { open_popup: false, close_popup: true, event: None },
            EditWindowAction::CloseWindow => {
                self.open = false;
                quiet
            },
        }
    }

    /// Opens an empty editor, keeping the categories to choose from. The
    /// author is the player's account name without its leading colon where
    /// known, else the name the real-time API reports, else empty; the map is
    /// the current one where known. Returns the request for the file names.
    pub fn open<H>(&mut self, account_name: Option<&str>, rtapi_account: Option<String>, map_id: Option<u32>) -> (r:
        ControllerEvent<[T; 3], H>)
        requires
            account_name matches Some(a) ==> a@.len() > 0,
        ensures
            r is GetMarkerPaths,
            final(self).open,
            final(self).category.data@ == old(self).category.data@,
            final(self).category.entry is None,
            final(self).name@.len() == 0,
            final(self).description@.len() == 0,
            final(self).formatted_name@.len() == 0,
            final(self).trigger is None,
            final(self).markers@.len() == 8,
            forall|i: int| 0 <= i < 8 ==> (#[trigger] final(self).markers@[i]).position is None
                && final(self).markers@[i].description@.len() == 0,
            final(self).path is None,
            final(self).idx is None,
            final(self).save_mode is None,
            final(self).filetype is None,
            final(self).original_category is None,
            final(self).filenames@.len() == 0,
            final(self).problems@.len() == 0,
            final(self).author@ == (match account_name {
                Some(a) => a@.subrange(1, a@.len() as int),
                None => match rtapi_account {
                    Some(n) => n@,
                    None => Seq::<char>::empty(),
                },
            }),
            final(self).map_id == (match map_id {
                Some(m) => m as i32,
                None => 0,
            }),
    {
        let mut fresh = Self::new();
        std::mem::swap(self, &mut fresh);
        let prev = fresh;
        let author = match account_name {
            Some(a) => {
                let n = a.unicode_len();
                String::from_str(a.substring_char(1, n))
            },
            None => match rtapi_account {
                Some(n) => n,
                None => String::new(),
            },
        };
        let map = match map_id {
            Some(m) => m as i32,
            None => 0,
        };
        self.category.update(prev.category.data);
        self.author = author;
        self.map_id = map;
        self.open = true;
        self.request_filenames()
    }

    /// Opens the editor on an existing set, to replace it on saving; the
    /// set's trigger and marker positions are turned back into game positions.
    pub fn open_edit(&mut self, ms: MarkerSet<[T; 3]>)
        requires
            ms.markers@.len() <= 8,
        ensures
            final(self).open,
            final(self).category.data@ == old(self).category.data@,
            final(self).category.entry == ms.category,
            final(self).original_category == ms.category,
            final(self).name == ms.name,
            final(self).trigger == Some(axes_swapped(ms.trigger)),
            final(self).description == ms.description,
            final(self).author@ == (match ms.author {
                Some(a) => a@,
                None => Seq::<char>::empty(),
            }),
            final(self).map_id == ms.map_id as i32,
            final(self).path == ms.path,
            final(self).idx == ms.idx,
            final(self).save_mode == Some(MarkerSaveMode::Edit),
            final(self).markers@.len() == 8,
            forall|i: int|
                0 <= i < 8 ==> (#[trigger] final(self).markers@[i]).position == (if i < ms.markers@.len() {
                    Some(axes_swapped(ms.markers@[i].position))
                } else {
                    None
                }),
            forall|i: int|
                0 <= i < 8 ==> (#[trigger] final(self).markers@[i]).description@ == (if i < ms.markers@.len() {
                    match ms.markers@[i].id {
                        Some(d) => d@,
                        None => Seq::<char>::empty(),
                    }
                } else {
                    Seq::<char>::empty()
                }),
            final(self).formatted_name@.len() == 0,
            final(self).filetype is None,
            final(self).filenames@.len() == 0,
            final(self).problems@.len() == 0,
    {
        let mut fresh = Self::new();
        std::mem::swap(self, &mut fresh);
        let prev = fresh;
        let markers = IndividualMarkerState::from_marker_entries(ms.markers);
        self.category.update(prev.category.data);
        self.markers = markers;
        self.original_category = clone_opt_string(&ms.category);
        self.category.entry = ms.category;
        self.name = ms.name;
        self.trigger = Some(swap_axes(ms.trigger));
        self.description = ms.description;
        self.author = match ms.author {
            Some(a) => a,
            None => String::new(),
        };
        self.map_id = ms.map_id as i32;
        self.path = ms.path;
        self.idx = ms.idx;
        self.save_mode = Some(MarkerSaveMode::Edit);
        self.open = true;
    }
}

/// The pathing window's filter, as flags: current map, enabled, disabled.
#[derive(Clone, Copy, Debug, PartialEq, Eq, Structural)]
pub struct PathingFilterState {
    pub bits: u8,
}

impl PathingFilterState {
    pub const CURRENT_MAP: u8 = 1;
    pub const ENABLED: u8 = 2;
    pub const DISABLED: u8 = 4;

    /// Both enabled and disabled paths are shown.
    pub fn default() -> (r: Self)
        ensures
            r.bits == 6,
    {
        PathingFilterState { bits: 6 }
    }

    /// The flag a filter option's label stands for.
    pub fn filter_string_to_flag(s: &str) -> (r: Self)
        requires
            s@ == "Enabled"@ || s@ == "Disabled"@ || s@ == "Current Map"@,
        ensures
            s@ == "Enabled"@ ==> r.bits == 2,
            s@ == "Disabled"@ ==> r.bits == 4,
            s@ == "Current Map"@ ==> r.bits == 1,
    {
        proof {
            reveal_strlit("Enabled");
            reveal_strlit("Disabled");
            reveal_strlit("Current Map");
            assert("Enabled"@.len() == 7);
            assert("Disabled"@.len() == 8);
            assert("Current Map"@.len() == 11);
        }
        if str_eq(s, "Enabled") {
            PathingFilterState { bits: 2 }
        } else if str_eq(s, "Disabled") {
            PathingFilterState { bits: 4 }
        } else {
            PathingFilterState { bits: 1 }
        }
    }

    /// Whether every flag of `flag` is set.
    pub fn contains(&self, flag: PathingFilterState) -> (r: bool)
        ensures
            r == (self.bits & flag.bits == flag.bits),
    {
        self.bits & flag.bits == flag.bits
    }

    /// Turns the flags of `flag` on or off, as a checkbox does.
    pub fn set(&mut self, flag: PathingFilterState, on: bool)
        ensures
            final(self).bits == (if on {
                old(self).bits | flag.bits
            } else {
                old(self).bits & !flag.bits
            }),
    {
        if on {
            self.bits = self.bits | flag.bits;
        } else {
            self.bits = self.bits & !flag.bits;
        }
    }
}

/// The pathing window: whether it and its filter options are open, and the filter.
pub struct PathingWindowState {
    pub open: bool,
    pub filter_open: bool,
    pub filter_state: PathingFilterState,
}

impl PathingWindowState {
    pub fn new() -> (r: Self)
        ensures
            !r.open,
            !r.filter_open,
            r.filter_state.bits == 6,
    {
        PathingWindowState { open: false, filter_open: false, filter_state: PathingFilterState::default() }
    }

    /// The label of the button that shows or hides the filter options.
    pub fn filter_button_text(&self) -> (r: &'static str)
        ensures
            r@ == (if self.filter_open {
                "Hide filter options"@
            } else {
                "Show filter options"@
            }),
    {
        if self.filter_open {
            "Hide filter options"
        } else {
            "Show filter options"
        }
    }

    /// One frame of the window. The window is open as the saved settings
    /// say, where they could be read (`saved_open`), else as it was. While it
    /// is open, a press of the filter button (`filter_pressed`) shows or hides
    /// the filter options and the window's close button (`closed`) closes it.
    /// Where the window's state changed, it is remembered and the request
    /// that records it in the settings is returned.
    pub fn draw<P, H>(&mut self, saved_open: Option<bool>, filter_pressed: bool, closed: bool) -> (r: Option<
        ControllerEvent<P, H>,
    >)
        ensures
            ({
                let shown = match saved_open {
                    Some(b) => b,
                    None => old(self).open,
                };
                let open = shown && !closed;
                &&& final(self).filter_open == (if shown && filter_pressed {
                    !old(self).filter_open
                } else {
                    old(self).filter_open
                })
                &&& final(self).filter_state == old(self).filter_state
                &&& final(self).open == open
                &&& open != old(self).open ==> (r matches Some(ControllerEvent::WindowState(w, state)) && w@
                    == "pathing"@ && state == Some(open))
                &&& open == old(self).open ==> r is None
            }),
    {
        let mut open = match saved_open {
            Some(b) => b,
            None => self.open,
        };
        if open {
            if filter_pressed {
                self.filter_open = !self.filter_open;
            }
            if closed {
                open = false;
            }
        }
        if open != self.open {
            self.open = open;
            let window = String::from_str("pathing");
            proof {
                reveal_strlit("pathing");
            }
            Some(ControllerEvent::WindowState(window, Some(open)))
        } else {
            None
        }
    }
}

/// The window listing the marker sets of the current map.
pub struct MarkerWindowState<P> {
    pub open: bool,
    pub markers_for_map: Vec<MarkerSet<P>>,
}

impl<P: Copy> MarkerWindowState<P> {
    /// A closed window with no marker sets.
    pub fn new() -> (r: Self)
        ensures
            !r.open,
            r.markers_for_map@.len() == 0,
    {
        MarkerWindowState { open: false, markers_for_map: Vec::new() }
    }

    /// Shows the marker sets of a newly entered map.
    pub fn new_map_markers(&mut self, markers: Vec<MarkerSet<P>>)
        ensures
            final(self).open == old(self).open,
            final(self).markers_for_map == markers,
    {
        self.markers_for_map = markers;
    }

    /// One frame of the window. The window is open as the saved settings
    /// say, where they could be read (`saved_open`), else as it was. While it
    /// is shown, the clear button (`clear_pressed`) asks for the squad
    /// markers to be cleared, the other (`clear_spent_pressed`) for the
    /// autoplace triggers to fire again, and the place button of a listed
    /// set (`place_pressed`, its position) for that set to be placed; the
    /// window's close button (`closed`) closes it. Where the window's state
    /// changed, it is remembered and recorded in the settings. The requests
    /// come in that order.
    pub fn draw<H>(
        &mut self,
        saved_open: Option<bool>,
        clear_pressed: bool,
        clear_spent_pressed: bool,
        place_pressed: Option<usize>,
        closed: bool,
    ) -> (r: Vec<ControllerEvent<P, H>>)
        ensures
            ({
                let shown = match saved_open {
                    Some(b) => b,
                    None => old(self).open,
                };
                let open = shown && !closed;
                let place = match place_pressed {
                    Some(i) => shown && i < old(self).markers_for_map@.len(),
                    None => false,
                };
                let a: int = if shown && clear_pressed { 1int } else { 0int };
                let b: int = a + if shown && clear_spent_pressed { 1int } else { 0int };
                let c: int = b + if place { 1int } else { 0int };
                &&& final(self).open == open
                &&& final(self).markers_for_map == old(self).markers_for_map
                &&& r@.len() == c + if open != old(self).open { 1int } else { 0int }
                &&& shown && clear_pressed ==> r@[0] is ClearMarkers
                &&& shown && clear_spent_pressed ==> r@[a] is ClearSpentAutoplace
                &&& place ==> (r@[b] matches ControllerEvent::SetMarker(s) && s@ == old(self).markers_for_map@[
                    place_pressed->0 as int]@)
                &&& open != old(self).open ==> (r@[c] matches ControllerEvent::WindowState(w, state) && w@
                    == "markers"@ && state == Some(open))
            }),
    {
        let mut events: Vec<ControllerEvent<P, H>> = Vec::new();
        let shown = match saved_open {
            Some(b) => b,
            None => self.open,
        };
        if shown {
            if clear_pressed {
                events.push(ControllerEvent::ClearMarkers);
            }
            if clear_spent_pressed {
                events.push(ControllerEvent::ClearSpentAutoplace);
            }
            match place_pressed {
                Some(i) => if i < self.markers_for_map.len() {
                    events.push(ControllerEvent::SetMarker(self.markers_for_map[i].clone()));
                },
                None => {},
            }
        }
        let open = shown && !closed;
        if open != self.open {
            self.open = open;
            let window = String::from_str("markers");
            proof {
                reveal_strlit("markers");
            }
            events.push(ControllerEvent::WindowState(window, Some(open)));
        }
        events
    }
}

/// The information tab; it holds no state.
pub struct InfoTabState {}

impl InfoTabState {
    pub fn new() -> (r: Self) {
        InfoTabState {  }
    }
}

/// The configuration tab's copy of the settings it edits.
pub struct ConfigTabState {
    pub katrender: bool,
    pub marker_autoplace: MarkerAutoPlaceSettings,
    pub marker_autoplace_inner: Option<SquadCondition>,
}

/// The squad condition of an autoplace setting, where it has one.
pub open spec fn autoplace_condition(s: MarkerAutoPlaceSettings) -> Option<SquadCondition> {
    match s {
        MarkerAutoPlaceSettings::OpenWindow(t) => Some(t),
        MarkerAutoPlaceSettings::Place(t) => Some(t),
        MarkerAutoPlaceSettings::DoNothing => None,
    }
}

impl ConfigTabState {
    pub fn new() -> (r: Self)
        ensures
            !r.katrender,
            r.marker_autoplace == MarkerAutoPlaceSettings::DoNothing,
            r.marker_autoplace_inner is None,
    {
        ConfigTabState { katrender: false, marker_autoplace: MarkerAutoPlaceSettings::DoNothing, marker_autoplace_inner: None }
    }

    /// Takes over the saved autoplace setting and its squad condition.
    pub fn sync_autoplace(&mut self, saved: MarkerAutoPlaceSettings)
        ensures
            final(self).marker_autoplace == saved,
            final(self).marker_autoplace_inner == autoplace_condition(saved),
            final(self).katrender == old(self).katrender,
    {
        self.marker_autoplace = saved;
        self.marker_autoplace_inner = match saved {
            MarkerAutoPlaceSettings::OpenWindow(t) => Some(t),
            MarkerAutoPlaceSettings::Place(t) => Some(t),
            _ => None,
        };
    }

    /// Takes over the saved state of the KatRender switch.
    pub fn sync_katrender(&mut self, saved: bool)
        ensures
            final(self).katrender == saved,
            final(self).marker_autoplace == old(self).marker_autoplace,
            final(self).marker_autoplace_inner == old(self).marker_autoplace_inner,
    {
        self.katrender = saved;
    }

    /// The KatRender switch was clicked: it flips, and the request that
    /// flips the saved setting is returned.
    pub fn toggle_katrender<P, H>(&mut self) -> (r: ControllerEvent<P, H>)
        ensures
            final(self).katrender == !old(self).katrender,
            final(self).marker_autoplace == old(self).marker_autoplace,
            final(self).marker_autoplace_inner == old(self).marker_autoplace_inner,
            r is ToggleKatRender,
    {
        self.katrender = !self.katrender;
        ControllerEvent::ToggleKatRender
    }

    /// Picks what autoplacement does; returns the request that saves the
    /// setting. Its squad condition is taken over with the next saved state.
    pub fn choose_autoplace<P, H>(&mut self, selection: MarkerAutoPlaceSettings) -> (r: ControllerEvent<P, H>)
        ensures
            final(self).marker_autoplace == selection,
            final(self).marker_autoplace_inner == old(self).marker_autoplace_inner,
            final(self).katrender == old(self).katrender,
            r == ControllerEvent::<P, H>::MarkerAutoPlaceSettings(selection),
    {
        self.marker_autoplace = selection;
        ControllerEvent::MarkerAutoPlaceSettings(selection)
    }

    /// Picks a new squad condition for the autoplace setting; returns the
    /// request that saves the setting.
    pub fn choose_condition<P, H>(&mut self, selection: SquadCondition) -> (r: ControllerEvent<P, H>)
        ensures
            final(self).marker_autoplace == (match old(self).marker_autoplace {
                MarkerAutoPlaceSettings::OpenWindow(_) => MarkerAutoPlaceSettings::OpenWindow(selection),
                MarkerAutoPlaceSettings::Place(_) => MarkerAutoPlaceSettings::Place(selection),
                MarkerAutoPlaceSettings::DoNothing => MarkerAutoPlaceSettings::DoNothing,
            }),
            r == ControllerEvent::<P, H>::MarkerAutoPlaceSettings(final(self).marker_autoplace),
    {
        self.marker_autoplace = match self.marker_autoplace {
            MarkerAutoPlaceSettings::OpenWindow(_) => MarkerAutoPlaceSettings::OpenWindow(selection),
            MarkerAutoPlaceSettings::Place(_) => MarkerAutoPlaceSettings::Place(selection),
            MarkerAutoPlaceSettings::DoNothing => MarkerAutoPlaceSettings::DoNothing,
        };
        ControllerEvent::MarkerAutoPlaceSettings(self.marker_autoplace)
    }
}

/// The button offered next to a data source's update status.
#[derive(Clone, Copy, Debug, PartialEq, Eq, Structural)]
pub enum UpdateButton {
    AttemptUpdate,
    Update,
}

/// The update button for a source's status: try anyway where the status is
/// unknown, update where a newer release is known, none where up to date.
pub open spec fn update_button_for(n: NeedsUpdate) -> Option<UpdateButton> {
    match n {
        NeedsUpdate::Unknown => Some(UpdateButton::AttemptUpdate),
        NeedsUpdate::Known(true, _) => Some(UpdateButton::Update),
        NeedsUpdate::Known(false, _) => None,
    }
}

/// An update is offered exactly where the source is not known to be up to
/// date: "update" where a newer release is known, "attempt update" where
/// nothing is known.
pub proof fn lemma_update_offered(n: NeedsUpdate)
    ensures
        update_button_for(n) is None <==> n matches NeedsUpdate::Known(false, _),
        n is Unknown ==> update_button_for(n) == Some(UpdateButton::AttemptUpdate),
        n matches NeedsUpdate::Known(true, _) ==> update_button_for(n) == Some(UpdateButton::Update),
{
}

/// One row of the data sources table.
#[derive(Debug)]
pub struct RemoteRow {
    pub source: String,
    pub description: Option<String>,
    pub installed_tag: Option<String>,
    pub status: String,
    pub update_button: Option<UpdateButton>,
    pub installed_path: Option<String>,
}

/// What the data sources tab shows.
#[derive(Debug)]
pub enum DataSourceView {
    SettingsUnloaded,
    CheckingForUpdates,
    Remotes(Vec<RemoteRow>),
}

/// The modal that confirms uninstalling a data source.
#[derive(Debug)]
pub struct UninstallView<P, H> {
    pub source: String,
    pub path: Option<String>,
    pub confirm: ControllerEvent<P, H>,
}

/// The data sources tab: whether an update check is running.
pub struct DataSourceTabState {
    pub checking_for_updates: bool,
}

/// A button pressed in the data sources tab; a source is named by its row.
#[derive(Debug)]
pub enum DataSourceAction {
    CheckForUpdates,
    Reload,
    /// The update button of a row.
    Update(usize),
    /// The button that opens a row's repository page: the key its error is
    /// kept under, and the page's address.
    OpenRepository(usize, String, String),
    /// The button that opens a row's install folder: the key its error is
    /// kept under.
    OpenFolder(usize, String),
    /// The confirmation in a row's uninstall modal.
    Uninstall(usize),
}

/// The request a press in the data sources tab sends, as `remotes` (`None`
/// where the settings cannot be read) and the tab's state offer the button:
/// none while the settings are unreadable or an update check runs; an
/// update only where the row offers one; opening or removing the install
/// folder only where the source is installed.
pub open spec fn data_source_request<P, H>(
    checking: bool,
    remotes: Option<Seq<RemoteState>>,
    action: DataSourceAction,
    r: Option<ControllerEvent<P, H>>,
) -> bool {
    match remotes {
        None => r is None,
        Some(rs) => if checking {
            r is None
        } else {
            match action {
                DataSourceAction::CheckForUpdates => r matches Some(e) && e is CheckDataSourceUpdates,
                DataSourceAction::Reload => r matches Some(e) && e is ReloadData,
                DataSourceAction::Update(i) => if i < rs.len() && update_button_for(rs[i as int].needs_update) is Some {
                    r matches Some(ControllerEvent::DoDataSourceUpdate { source }) && source == rs[i as int].source
                } else {
                    r is None
                },
                DataSourceAction::OpenRepository(i, key, url) => if i < rs.len() {
                    r matches Some(ControllerEvent::OpenOpenable(k, u)) && k == key && u == url
                } else {
                    r is None
                },
                DataSourceAction::OpenFolder(i, key) => if i < rs.len() && rs[i as int].installed_path is Some {
                    r matches Some(ControllerEvent::OpenOpenable(k, u)) && k == key && Some(u)
                        == rs[i as int].installed_path
                } else {
                    r is None
                },
                DataSourceAction::Uninstall(i) => if i < rs.len() && rs[i as int].installed_path is Some {
                    r matches Some(ControllerEvent::UninstallAddon(s)) && s == rs[i as int].source
                } else {
                    r is None
                },
            }
        },
    }
}

/// The row shown for a remote.
pub open spec fn row_matches(row: RemoteRow, rs: RemoteState) -> bool {
    &&& row.source@ == rs.source.owner@ + "/"@ + rs.source.repository@
    &&& row.description == rs.source.description
    &&& row.installed_tag == rs.installed_tag
    &&& row.status@ == needs_update_text(rs.needs_update)
    &&& row.update_button == update_button_for(rs.needs_update)
    &&& row.installed_path == rs.installed_path
}

impl DataSourceTabState {
    pub fn new() -> (r: Self)
        ensures
            !r.checking_for_updates,
    {
        DataSourceTabState { checking_for_updates: false }
    }

    /// What the tab shows: a notice where the settings are not loaded or an
    /// update check runs, else one row per data source.
    pub fn draw(&self, remotes: Option<&Vec<RemoteState>>) -> (r: DataSourceView)
        ensures
            match remotes {
                None => r is SettingsUnloaded,
                Some(rs) => if self.checking_for_updates {
                    r is CheckingForUpdates
                } else {
                    r matches DataSourceView::Remotes(rows) && rows@.len() == rs@.len() && forall|i: int|
                        0 <= i < rs@.len() ==> row_matches(#[trigger] rows@[i], rs@[i])
                },
            },
    {
        let remotes = match remotes {
            Some(r) => r,
            None => return DataSourceView::SettingsUnloaded,
        };
        if self.checking_for_updates {
            return DataSourceView::CheckingForUpdates;
        }
        let mut rows: Vec<RemoteRow> = Vec::new();
        let n = remotes.len();
        let mut i: usize = 0;
        while i < n
            invariant
                n == remotes@.len(),
                i <= n,
                rows@.len() == i,
                forall|j: int| 0 <= j < i ==> row_matches(#[trigger] rows@[j], remotes@[j]),
            decreases n - i,
        {
            let rs = &remotes[i];
            let update_button = match &rs.needs_update {
                NeedsUpdate::Unknown => Some(UpdateButton::AttemptUpdate),
                NeedsUpdate::Known(true, _) => Some(UpdateButton::Update),
                NeedsUpdate::Known(false, _) => None,
            };
            rows.push(
                RemoteRow {
                    source: rs.source.to_string(),
                    description: clone_opt_string(&rs.source.description),
                    installed_tag: clone_opt_string(&rs.installed_tag),
                    status: rs.needs_update.to_string(),
                    update_button,
                    installed_path: clone_opt_string(&rs.installed_path),
                },
            );
            i = i + 1;
        }
        DataSourceView::Remotes(rows)
    }

    /// The request a button of the tab sends, as `data_source_request` states.
    pub fn act<P, H>(&self, remotes: Option<&Vec<RemoteState>>, action: DataSourceAction) -> (r: Option<
        ControllerEvent<P, H>,
    >)
        ensures
            data_source_request(
                self.checking_for_updates,
                match remotes {
                    Some(rs) => Some(rs@),
                    None => None,
                },
                action,
                r,
            ),
    {
        let rs = match remotes {
            Some(rs) => rs,
            None => return None,
        };
        if self.checking_for_updates {
            return None;
        }
        match action {
            DataSourceAction::CheckForUpdates => Some(ControllerEvent::CheckDataSourceUpdates),
            DataSourceAction::Reload => Some(ControllerEvent::ReloadData),
            DataSourceAction::Update(i) => {
                if i < rs.len() {
                    let offered = match &rs[i].needs_update {
                        NeedsUpdate::Unknown => true,
                        NeedsUpdate::Known(newer, _) => *newer,
                    };
                    if offered {
                        return Some(ControllerEvent::DoDataSourceUpdate { source: rs[i].source.clone() });
                    }
                }
                None
            },
            DataSourceAction::OpenRepository(i, key, url) => {
                if i < rs.len() {
                    Some(ControllerEvent::OpenOpenable(key, url))
                } else {
                    None
                }
            },
            DataSourceAction::OpenFolder(i, key) => {
                if i < rs.len() {
                    match &rs[i].installed_path {
                        Some(p) => Some(ControllerEvent::OpenOpenable(key, p.clone())),
                        None => None,
                    }
                } else {
                    None
                }
            },
            DataSourceAction::Uninstall(i) => {
                if i < rs.len() && rs[i].installed_path.is_some() {
                    Some(ControllerEvent::UninstallAddon(rs[i].source.clone()))
                } else {
                    None
                }
            },
        }
    }

    /// The uninstall modal for a source, and the request its button sends.
    pub fn draw_uninstall<P, H>(&self, rs: &RemoteState) -> (r: UninstallView<P, H>)
        ensures
            r.source@ == rs.source.owner@ + "/"@ + rs.source.repository@,
            r.path == rs.installed_path,
            r.confirm matches ControllerEvent::UninstallAddon(s) && s == rs.source,
    {
        UninstallView {
            source: rs.source.to_string(),
            path: clone_opt_string(&rs.installed_path),
            confirm: ControllerEvent::UninstallAddon(rs.source.clone()),
        }
    }
}

} // verus!
