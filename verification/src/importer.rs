//! The importer: on its first page the user picks a file and starts the
//! import of it; then each entry of the file that may already exist is shown
//! with its candidates, and the user picks one of them or none, step by step,
//! until the importer has nothing more to ask.
use vstd::prelude::*;

verus! {

/// What the owner of the page has to do.
pub enum Action {
    Nothing,
    /// Ask the user for a file, and hand it back as [`Message::FilePicked`].
    PickFile,
    /// Import the file at this path.
    StartImport(String),
}

/// What the user tells the page.
pub enum Message {
    PickFile,
    FilePicked(String),
    StartImport,
}

/// The page's state: the file picked so far.
pub struct Start {
    selected_file: Option<String>,
}

impl Default for Start {
    /// No file picked.
    fn default() -> (r: Self)
        ensures
            r.selected() is None,
    {
        Start { selected_file: None }
    }
}

impl Start {
    /// The path of the file picked so far.
    pub closed spec fn selected(&self) -> Option<Seq<char>> {
        match self.selected_file {
            Some(f) => Some(f@),
            None => None,
        }
    }

    /// The path of the file picked so far.
    pub fn selected_file(&self) -> (r: &Option<String>)
        ensures
            self.selected() == (match *r {
                Some(f) => Some(f@),
                None => None,
            }),
    {
        &self.selected_file
    }

    /// Whether the import can be started: a file has been picked.
    pub fn can_start(&self) -> (r: bool)
        ensures
            r == (self.selected() is Some),
    {
        self.selected_file.is_some()
    }

    /// Applies a message: a picked file is remembered, and the import starts
    /// only once a file has been picked.
    pub fn update(&mut self, message: Message) -> (r: Action)
        ensures
            match message {
                Message::PickFile => r is PickFile && final(self).selected() == old(self).selected(),
                Message::FilePicked(f) => r is Nothing && final(self).selected() == Some(f@),
                Message::StartImport => final(self).selected() == old(self).selected() && match old(self).selected() {
                    Some(f) => r matches Action::StartImport(p) && p@ == f,
                    None => r is Nothing,
                },
            },
    {
        match message {
            Message::PickFile => Action::PickFile,
            Message::FilePicked(file) => {
                self.selected_file = Some(file);
                Action::Nothing
            },
            Message::StartImport => match &self.selected_file {
                Some(path) => Action::StartImport(path.clone()),
                None => Action::Nothing,
            },
        }
    }
}

/// What the user, or the importer, tells the import step; `A` is a question of
/// the importer (an entry of the file that may already exist).
pub enum ImportMessage<A> {
    /// The importer asks this, with no candidate picked yet.
    Ask(A),
    /// Go on: answer the question asked, or fetch the first one.
    Next,
    /// The importer has nothing more to ask.
    Finished,
    /// The user picks a candidate by its position, or none.
    SelectOption(Option<usize>),
}

/// What the owner of the import step has to do.
pub enum ImportAction<A> {
    Nothing,
    /// Answer the question with the candidate picked (none: a new object),
    /// let the importer go on, and hand back its next question as
    /// [`ImportMessage::Ask`], or [`ImportMessage::Finished`].
    Answer(A, Option<usize>),
    /// Fetch the importer's first question, and hand it back as
    /// [`ImportMessage::Ask`], or [`ImportMessage::Finished`].
    FetchNext,
    /// The import is over.
    Finished,
}

/// The import step: the question shown, with the candidate picked so far.
pub struct Import<A> {
    question: Option<(A, Option<usize>)>,
}

impl<A> Import<A> {
    /// The question shown, with the candidate picked so far.
    pub closed spec fn shown(&self) -> Option<(A, Option<usize>)> {
        self.question
    }

    /// A step with no question shown yet, and the message that starts it.
    pub fn new() -> (r: (Self, ImportMessage<A>))
        ensures
            r.0.shown() is None,
            r.1 is Next,
    {
        (Import { question: None }, ImportMessage::Next)
    }

    /// Whether the user can go on: a question is shown.
    pub fn can_go_next(&self) -> (r: bool)
        ensures
            r == (self.shown() is Some),
    {
        self.question.is_some()
    }

    /// Applies a message and says what the owner has to do.
    pub fn update(&mut self, message: ImportMessage<A>) -> (r: ImportAction<A>)
        ensures
            match message {
                ImportMessage::Ask(q) => r is Nothing && final(self).shown() == Some((q, None::<usize>)),
                ImportMessage::Next => final(self).shown() is None && match old(self).shown() {
                    Some((q, picked)) => r == ImportAction::Answer(q, picked),
                    None => r is FetchNext,
                },
                ImportMessage::Finished => r is Finished && final(self).shown() == old(self).shown(),
                ImportMessage::SelectOption(o) => r is Nothing && final(self).shown() == match old(self).shown() {
                    Some((q, _)) => Some((q, o)),
                    None => None,
                },
            },
    {
        match message {
            ImportMessage::Ask(q) => {
                self.question = Some((q, None));
                ImportAction::Nothing
            },
            ImportMessage::Next => match self.question.take() {
                Some((q, picked)) => ImportAction::Answer(q, picked),
                None => ImportAction::FetchNext,
            },
            ImportMessage::Finished => ImportAction::Finished,
            ImportMessage::SelectOption(o) => {
                match self.question.take() {
                    Some((q, _)) => {
                        self.question = Some((q, o));
                    },
                    None => {},
                }
                ImportAction::Nothing
            },
        }
    }
}

/// What a page of the importer, or a finished task, tells the importer.
pub enum ImporterMessage<A> {
    Start(Message),
    Import(ImportMessage<A>),
    /// The importer for the file was made.
    Created,
}

/// What the owner of the importer has to do.
pub enum ImporterAction<A> {
    Nothing,
    /// Ask the user for a file, and hand it back as
    /// `ImporterMessage::Start(Message::FilePicked(..))`.
    PickFile,
    /// Make an importer for the file at this path, and hand back
    /// [`ImporterMessage::Created`].
    CreateImporter(String),
    /// What the import step asks.
    Import(ImportAction<A>),
    /// Hand this message back to the importer.
    Send(ImporterMessage<A>),
    /// Tell the user that the import is over.
    ShowFinished,
}

/// The importer's screens.
pub enum Importer<A> {
    StartScreen(Start),
    ImportScreen(Import<A>),
    /// The importer for the picked file is being made.
    CreatingImporter,
}

/// True when `i` shows the first page, with `selected` picked.
pub open spec fn start_page<A>(i: Importer<A>, selected: Option<Seq<char>>) -> bool {
    i matches Importer::StartScreen(s) && s.selected() == selected
}

/// True when `i` shows the import step, with `shown` on it.
pub open spec fn import_page<A>(i: Importer<A>, shown: Option<(A, Option<usize>)>) -> bool {
    i matches Importer::ImportScreen(s) && s.shown() == shown
}

impl<A> Default for Importer<A> {
    /// The first page, with no file picked.
    fn default() -> (r: Self)
        ensures
            start_page(r, None),
    {
        Importer::StartScreen(Start::default())
    }
}

/// What [`Importer::update`] does: `old` becomes `new` and `r` is returned.
pub open spec fn importer_post<A>(old: Importer<A>, message: ImporterMessage<A>, new: Importer<A>, r: ImporterAction<A>) -> bool {
    &&& match message {
            ImporterMessage::Start(m) => match old {
                Importer::StartScreen(s) => match m {
                    Message::PickFile => r is PickFile && start_page(new, s.selected()),
                    Message::FilePicked(f) => r is Nothing && start_page(new, Some(f@)),
                    Message::StartImport => match s.selected() {
                        Some(f) => (r matches ImporterAction::CreateImporter(p) && p@ == f)
                            && new is CreatingImporter,
                        None => r is Nothing && start_page(new, None),
                    },
                },
                _ => r is Nothing && new == old,
            },
            ImporterMessage::Import(m) => match old {
                Importer::ImportScreen(i) => match m {
                    ImportMessage::Finished => r is ShowFinished && start_page(new, None),
                    ImportMessage::Ask(q) => r == ImporterAction::<A>::Import(ImportAction::Nothing)
                        && import_page(new, Some((q, None::<usize>))),
                    ImportMessage::Next => import_page(new, None) && match i.shown() {
                        Some((q, picked)) => r == ImporterAction::Import(ImportAction::Answer(q, picked)),
                        None => r == ImporterAction::<A>::Import(ImportAction::FetchNext),
                    },
                    ImportMessage::SelectOption(o) => r == ImporterAction::<A>::Import(ImportAction::Nothing)
                        && import_page(new, match i.shown() {
                            Some((q, _)) => Some((q, o)),
                            None => None,
                        }),
                },
                _ => r is Nothing && new == old,
            },
            ImporterMessage::Created => r == ImporterAction::<A>::Send(ImporterMessage::Import(ImportMessage::Next))
                && import_page(new, None),
        }
}

impl<A> Importer<A> {
    /// Applies a message and says what the owner has to do. A message for a
    /// page that is not shown changes nothing.
    pub fn update(&mut self, message: ImporterMessage<A>) -> (r: ImporterAction<A>)
        ensures
            importer_post(*old(self), message, *final(self), r),

    {
        match message {
            ImporterMessage::Start(m) => {
                let mut current = Importer::CreatingImporter;
                std::mem::swap(&mut current, self);
                match current {
                    Importer::StartScreen(mut s) => match s.update(m) {
                        Action::Nothing => {
                            *self = Importer::StartScreen(s);
                            ImporterAction::Nothing
                        },
                        Action::PickFile => {
                            *self = Importer::StartScreen(s);
                            ImporterAction::PickFile
                        },
                        Action::StartImport(path) => ImporterAction::CreateImporter(path),
                    },
                    other => {
                        *self = other;
                        ImporterAction::Nothing
                    },
                }
            },
            ImporterMessage::Import(m) => {
                let mut current = Importer::CreatingImporter;
                std::mem::swap(&mut current, self);
                match current {
                    Importer::ImportScreen(mut i) => match i.update(m) {
                        ImportAction::Finished => {
                            *self = Importer::StartScreen(Start::default());
                            ImporterAction::ShowFinished
                        },
                        a => {
                            *self = Importer::ImportScreen(i);
                            ImporterAction::Import(a)
                        },
                    },
                    other => {
                        *self = other;
                        ImporterAction::Nothing
                    },
                }
            },
            ImporterMessage::Created => {
                let (i, next) = Import::new();
                *self = Importer::ImportScreen(i);
                ImporterAction::Send(ImporterMessage::Import(next))
            },
        }
    }
}

} // verus!
