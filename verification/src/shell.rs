//! The panel between clicks: which popup is open, what has been typed, and
//! the last status line. The drawing code reports what the user did as a
//! [`UiEvent`] and carries out the [`UiAction`] it is handed back.

use vstd::prelude::*;
use vstd::string::*;
use crate::api_caller::{
    input_field, is_success_status, lemma_failure_names_the_code, occurs_in, outcome_of_status,
    outcome_view, redeem_request, status_message, status_text, text_of, ApiCaller, RedeemError,
    RedeemErrorView, RedeemRequest, RequestView, UNFIT_COOKIES,
};
use crate::decimal::decimal;
use crate::config::{all_wf, ApiButton, AppConfig, AuthData, AuthError, AuthView, ButtonView, ConfigError};
use crate::layout::{column_of, ends_row, layout_for, place, row_of, GridLayout};
use crate::protocol::is_header_value;

verus! {

/// Why the panel could not be started.
#[derive(Debug, Clone, Copy, PartialEq, Eq, Structural)]
pub enum StartupError {
    Config(ConfigError),
    Auth(AuthError),
}

/// What the user did, or what came back from a redeem call.
#[derive(Debug, PartialEq, Eq)]
pub enum UiEvent {
    /// The button at this place in the configuration was clicked.
    ButtonClicked(usize),
    /// The text box of the open popup now holds this text.
    InputChanged(String),
    /// Submit was clicked in the open popup.
    SubmitClicked,
    /// The user clicked outside the open popup.
    PopupDismissed,
    /// The redeem started from the button with this text has ended.
    RedeemFinished(String, Result<(), RedeemError>),
}

/// What a [`UiEvent`] holds, as mathematical values.
pub ghost enum EventView {
    ButtonClicked(int),
    InputChanged(Seq<char>),
    SubmitClicked,
    PopupDismissed,
    RedeemFinished(Seq<char>, Result<(), RedeemErrorView>),
}

impl View for UiEvent {
    type V = EventView;

    open spec fn view(&self) -> EventView {
        match self {
            UiEvent::ButtonClicked(index) => EventView::ButtonClicked(*index as int),
            UiEvent::InputChanged(text) => EventView::InputChanged(text@),
            UiEvent::SubmitClicked => EventView::SubmitClicked,
            UiEvent::PopupDismissed => EventView::PopupDismissed,
            UiEvent::RedeemFinished(name, outcome) => EventView::RedeemFinished(
                name@,
                outcome_view(*outcome),
            ),
        }
    }
}

/// One redeem to carry out in the background: whose session, which action,
/// and the text that goes with it, if the user was asked for one.
#[derive(Debug, PartialEq, Eq)]
pub struct Redemption {
    pub auth: AuthData,
    pub button: ApiButton,
    pub input: Option<String>,
}

/// What a [`Redemption`] holds, as mathematical values.
pub ghost struct RedemptionView {
    pub auth: AuthView,
    pub button: ButtonView,
    pub input: Option<Seq<char>>,
}

impl View for Redemption {
    type V = RedemptionView;

    open spec fn view(&self) -> RedemptionView {
        RedemptionView { auth: self.auth@, button: self.button@, input: text_of(self.input) }
    }
}

impl RedemptionView {
    /// The request that carries this redeem out. Where the session cookies
    /// cannot travel as a header value there is nothing to send, and the
    /// redeem has failed before it reached the network.
    pub open spec fn request(self) -> Result<RequestView, RedeemErrorView> {
        if is_header_value(self.auth.cookies) {
            Ok(redeem_request(self.auth.cookies, self.button.api_name, self.input))
        } else {
            Err(RedeemErrorView::Transport(UNFIT_COOKIES@))
        }
    }
}

impl Redemption {
    /// The request that carries this redeem out. Where the session cookies
    /// cannot travel as a header value there is nothing to send, and the
    /// redeem has failed before it reached the network.
    pub fn request(&self) -> (request: Result<RedeemRequest, RedeemError>)
        ensures
            match request {
                Ok(r) => self@.request() == Ok::<RequestView, RedeemErrorView>(r@),
                Err(e) => self@.request() == Err::<RequestView, RedeemErrorView>(e@),
            },
    {
        match ApiCaller::new(&self.auth) {
            Some(caller) => {
                let input = match &self.input {
                    Some(text) => Some(text.clone()),
                    None => None,
                };
                Ok(caller.call_api(self.button.api_name.as_str(), input))
            },
            None => Err(RedeemError::Transport(String::from_str(UNFIT_COOKIES))),
        }
    }
}

/// What the drawing code is to do after an event.
#[derive(Debug, PartialEq, Eq)]
pub enum UiAction {
    /// Nothing beyond drawing the next frame.
    Nothing,
    /// Start this redeem in the background, and report its end with
    /// [`UiEvent::RedeemFinished`] under the button's text.
    Dispatch(Redemption),
}

/// What a [`UiAction`] holds, as mathematical values.
pub ghost enum ActionView {
    Nothing,
    Dispatch(RedemptionView),
}

impl View for UiAction {
    type V = ActionView;

    open spec fn view(&self) -> ActionView {
        match self {
            UiAction::Nothing => ActionView::Nothing,
            UiAction::Dispatch(redemption) => ActionView::Dispatch(redemption@),
        }
    }
}

/// The panel as mathematical values.
pub ghost struct ShellView {
    /// The redeem definitions, in drawing order.
    pub buttons: Seq<ButtonView>,
    /// The session.
    pub auth: AuthView,
    /// What the text box held last.
    pub input_text: Seq<char>,
    /// The last status line; empty while there is nothing to show.
    pub status_message: Seq<char>,
    /// The button whose popup is open, if one is.
    pub open_popup: Option<int>,
}

impl ShellView {
    /// A popup is only ever open for a button that is there and asks for
    /// input.
    pub open spec fn wf(self) -> bool {
        self.open_popup matches Some(i) ==> 0 <= i < self.buttons.len()
            && self.buttons[i].requires_input
    }

    /// The panel right after loading: no popup, no text, no status.
    pub open spec fn initial(buttons: Seq<ButtonView>, auth: AuthView) -> ShellView {
        ShellView {
            buttons,
            auth,
            input_text: Seq::empty(),
            status_message: Seq::empty(),
            open_popup: None,
        }
    }

    /// The redeem of button `index` with `input`.
    pub open spec fn redemption(self, index: int, input: Option<Seq<char>>) -> RedemptionView {
        RedemptionView { auth: self.auth, button: self.buttons[index], input }
    }

    /// The panel after `event`, and what is to be done about it.
    ///
    /// A click on a button that asks for input opens its popup, or closes it
    /// if it was open; a click on any other button sends its redeem at once,
    /// without input, and counts as a click outside an open popup. Submit
    /// sends the redeem of the popup's button with the text typed so far and
    /// closes the popup. A redeem that ends replaces the status line. The
    /// typed text outlives the popup, and nothing changes the definitions or
    /// the session.
    pub open spec fn step(self, event: EventView) -> (ShellView, ActionView) {
        match event {
            EventView::ButtonClicked(index) => {
                if !(0 <= index < self.buttons.len()) {
                    (self, ActionView::Nothing)
                } else if self.buttons[index].requires_input {
                    let open_popup = if self.open_popup == Some(index) {
                        None
                    } else {
                        Some(index)
                    };
                    (ShellView { open_popup, ..self }, ActionView::Nothing)
                } else {
                    (
                        ShellView { open_popup: None, ..self },
                        ActionView::Dispatch(self.redemption(index, None)),
                    )
                }
            },
            EventView::InputChanged(text) => {
                if self.open_popup is Some {
                    (ShellView { input_text: text, ..self }, ActionView::Nothing)
                } else {
                    (self, ActionView::Nothing)
                }
            },
            EventView::SubmitClicked => {
                match self.open_popup {
                    Some(index) => (
                        ShellView { open_popup: None, ..self },
                        ActionView::Dispatch(self.redemption(index, Some(self.input_text))),
                    ),
                    None => (self, ActionView::Nothing),
                }
            },
            EventView::PopupDismissed => (ShellView { open_popup: None, ..self }, ActionView::Nothing),
            EventView::RedeemFinished(name, outcome) => (
                ShellView { status_message: status_text(name, outcome), ..self },
                ActionView::Nothing,
            ),
        }
    }
}

impl ShellView {
    /// The panel after a run of events, one after the other.
    pub open spec fn after(self, events: Seq<EventView>) -> ShellView
        decreases events.len(),
    {
        if events.len() == 0 {
            self
        } else {
            self.after(events.drop_last()).step(events.last()).0
        }
    }
}

/// One button of a frame.
#[derive(Debug, PartialEq, Eq)]
pub struct GridCell {
    /// The button's place in the configuration.
    pub index: usize,
    pub row: usize,
    pub column: usize,
    /// Whether the row ends after this button.
    pub ends_row: bool,
    /// The text on the button.
    pub label: String,
    pub requires_input: bool,
    /// Whether the button's popup is drawn below it.
    pub popup_open: bool,
}

/// What a [`GridCell`] holds, as mathematical values.
pub ghost struct CellView {
    pub index: int,
    pub row: int,
    pub column: int,
    pub ends_row: bool,
    pub label: Seq<char>,
    pub requires_input: bool,
    pub popup_open: bool,
}

impl View for GridCell {
    type V = CellView;

    open spec fn view(&self) -> CellView {
        CellView {
            index: self.index as int,
            row: self.row as int,
            column: self.column as int,
            ends_row: self.ends_row,
            label: self.label@,
            requires_input: self.requires_input,
            popup_open: self.popup_open,
        }
    }
}

/// What one frame shows.
#[derive(Debug, PartialEq, Eq)]
pub struct Frame {
    /// The status line; none while there is nothing to show.
    pub status: Option<String>,
    pub layout: GridLayout,
    /// One cell for each definition, in drawing order.
    pub cells: Vec<GridCell>,
}

/// What a [`Frame`] holds, as mathematical values.
pub ghost struct FrameView {
    pub status: Option<Seq<char>>,
    pub layout: GridLayout,
    pub cells: Seq<CellView>,
}

impl View for Frame {
    type V = FrameView;

    open spec fn view(&self) -> FrameView {
        FrameView {
            status: text_of(self.status),
            layout: self.layout,
            cells: self.cells@.map_values(|c: GridCell| c@),
        }
    }
}

impl ShellView {
    /// The cell of button `index` in a grid of `columns`.
    pub open spec fn cell(self, index: int, columns: int) -> CellView {
        CellView {
            index,
            row: row_of(index, columns),
            column: column_of(index, columns),
            ends_row: ends_row(index, columns),
            label: self.buttons[index].name,
            requires_input: self.buttons[index].requires_input,
            popup_open: self.open_popup == Some(index),
        }
    }

    /// The frame for `layout`: the status line if it is not empty, and one
    /// cell for each definition, in the order of the configuration.
    pub open spec fn frame(self, layout: GridLayout) -> FrameView {
        FrameView {
            status: if self.status_message.len() == 0 {
                None
            } else {
                Some(self.status_message)
            },
            layout,
            cells: Seq::new(self.buttons.len(), |i: int| self.cell(i, layout.columns as int)),
        }
    }
}

/// The panel.
#[derive(Debug)]
pub struct AppShell {
    config: AppConfig,
    auth: AuthData,
    input_text: String,
    status_message: String,
    open_popup: Option<usize>,
}

impl View for AppShell {
    type V = ShellView;

    closed spec fn view(&self) -> ShellView {
        ShellView {
            buttons: self.config@,
            auth: self.auth@,
            input_text: self.input_text@,
            status_message: self.status_message@,
            open_popup: match self.open_popup {
                Some(i) => Some(i as int),
                None => None,
            },
        }
    }
}

impl AppShell {
    #[verifier::type_invariant]
    spec fn inv(&self) -> bool {
        self@.wf()
    }

    /// Starts the panel from what loading gave. A configuration that could
    /// not be had stops the start, and so do credentials that could not be
    /// had; the configuration is asked for first. Otherwise the panel starts
    /// with no popup, no text and no status.
    pub fn new(
        config: Result<AppConfig, ConfigError>,
        auth: Result<AuthData, AuthError>,
    ) -> (shell: Result<AppShell, StartupError>)
        ensures
            config is Err || auth is Err ==> shell is Err,
            match (config, auth) {
                (Err(e), _) => shell matches Err(f) && f == StartupError::Config(e),
                (Ok(_), Err(e)) => shell matches Err(f) && f == StartupError::Auth(e),
                (Ok(c), Ok(a)) => shell matches Ok(s) && s@ == ShellView::initial(c@, a@),
            },
    {
        match config {
            Err(e) => Err(StartupError::Config(e)),
            Ok(config) => match auth {
                Err(e) => Err(StartupError::Auth(e)),
                Ok(auth) => Ok(
                    AppShell {
                        config,
                        auth,
                        input_text: String::new(),
                        status_message: String::new(),
                        open_popup: None,
                    },
                ),
            },
        }
    }

    /// The redeem definitions.
    pub fn config(&self) -> (config: &AppConfig)
        ensures
            config@ == self@.buttons,
    {
        &self.config
    }

    /// The session.
    pub fn auth(&self) -> (auth: &AuthData)
        ensures
            auth@ == self@.auth,
    {
        &self.auth
    }

    /// What the text box held last.
    pub fn input_text(&self) -> (text: &str)
        ensures
            text@ == self@.input_text,
    {
        self.input_text.as_str()
    }

    /// The last status line; empty while there is nothing to show.
    pub fn status_message(&self) -> (text: &str)
        ensures
            text@ == self@.status_message,
    {
        self.status_message.as_str()
    }

    /// The button whose popup is open, if one is.
    pub fn open_popup(&self) -> (open: Option<usize>)
        ensures
            self@.open_popup == match open {
                Some(i) => Some(i as int),
                None => None,
            },
            open matches Some(i) ==> i < self@.buttons.len() && self@.buttons[i as int].requires_input,
    {
        proof {
            use_type_invariant(self);
        }
        self.open_popup
    }

    /// Takes one event, and says what is to be done about it.
    pub fn handle(&mut self, event: UiEvent) -> (action: UiAction)
        ensures
            final(self)@ == old(self)@.step(event@).0,
            action@ == old(self)@.step(event@).1,
            final(self)@.wf(),
    {
        proof {
            use_type_invariant(&*self);
        }
        match event {
            UiEvent::ButtonClicked(index) => {
                if index >= self.config.buttons.len() {
                    UiAction::Nothing
                } else if self.config.buttons[index].requires_input {
                    let was_open = match self.open_popup {
                        Some(i) => i == index,
                        None => false,
                    };
                    self.open_popup = if was_open {
                        None
                    } else {
                        Some(index)
                    };
                    UiAction::Nothing
                } else {
                    self.open_popup = None;
                    UiAction::Dispatch(
                        Redemption {
                            auth: self.auth.clone(),
                            button: self.config.buttons[index].clone(),
                            input: None,
                        },
                    )
                }
            },
            UiEvent::InputChanged(text) => {
                if self.open_popup.is_some() {
                    self.input_text = text;
                }
                UiAction::Nothing
            },
            UiEvent::SubmitClicked => {
                match self.open_popup {
                    Some(index) => {
                        self.open_popup = None;
                        UiAction::Dispatch(
                            Redemption {
                                auth: self.auth.clone(),
                                button: self.config.buttons[index].clone(),
                                input: Some(self.input_text.clone()),
                            },
                        )
                    },
                    None => UiAction::Nothing,
                }
            },
            UiEvent::PopupDismissed => {
                self.open_popup = None;
                UiAction::Nothing
            },
            UiEvent::RedeemFinished(name, outcome) => {
                self.status_message = status_message(name.as_str(), &outcome);
                UiAction::Nothing
            },
        }
    }

    /// What to draw in `available_width`: the status line if there is one,
    /// the grid's measures, and one cell for each definition, in the order
    /// of the configuration.
    pub fn render(&self, available_width: u32) -> (frame: Frame)
        ensures
            frame.layout.columns == crate::layout::columns_for(available_width as int),
            frame.layout.nominal_width == crate::layout::nominal_width(frame.layout.columns as int),
            frame@ == self@.frame(frame.layout),
            frame@.cells.len() == self@.buttons.len(),
            forall|i: int|
                0 <= i < self@.buttons.len() ==> (#[trigger] frame@.cells[i]).index == i
                    && frame@.cells[i].label == self@.buttons[i].name,
    {
        let layout = layout_for(available_width);
        let status = if self.status_message.as_str().is_empty() {
            None
        } else {
            Some(self.status_message.clone())
        };
        let mut cells: Vec<GridCell> = Vec::new();
        let mut i: usize = 0;
        while i < self.config.buttons.len()
            invariant
                i <= self.config.buttons.len(),
                layout.columns >= 1,
                cells@.len() == i,
                forall|j: int|
                    0 <= j < i ==> (#[trigger] cells@[j])@ == self@.cell(j, layout.columns as int),
            decreases self.config.buttons.len() - i,
        {
            let button = &self.config.buttons[i];
            let (row, column, ends_row) = place(i, layout.columns);
            let popup_open = match self.open_popup {
                Some(open) => open == i,
                None => false,
            };
            cells.push(
                GridCell {
                    index: i,
                    row,
                    column,
                    ends_row,
                    label: button.name.clone(),
                    requires_input: button.requires_input,
                    popup_open,
                },
            );
            i += 1;
        }
        let frame = Frame { status, layout, cells };
        assert(frame@.cells =~= self@.frame(layout).cells);
        frame
    }
}

/// Every frame shows each definition once, in the order of the
/// configuration, whatever the layout and whatever happened before.
pub proof fn lemma_frame_follows_config(shell: ShellView, layout: GridLayout)
    ensures
        shell.frame(layout).cells.len() == shell.buttons.len(),
        forall|i: int|
            0 <= i < shell.buttons.len() ==> {
                let cell = #[trigger] shell.frame(layout).cells[i];
                &&& cell.index == i
                &&& cell.label == shell.buttons[i].name
                &&& cell.requires_input == shell.buttons[i].requires_input
            },
{
}

/// No event changes the definitions or the session, and a popup stays tied
/// to a button that asks for input.
pub proof fn lemma_step_keeps_config(shell: ShellView, event: EventView)
    requires
        shell.wf(),
    ensures
        shell.step(event).0.buttons == shell.buttons,
        shell.step(event).0.auth == shell.auth,
        shell.step(event).0.wf(),
{
}

/// Whatever has happened since the start, the panel is well formed, holds
/// the definitions and the session it was started with, and shows one button
/// for each definition, in the order of the configuration.
pub proof fn lemma_every_frame_shows_the_entries(
    buttons: Seq<ButtonView>,
    auth: AuthView,
    events: Seq<EventView>,
    layout: GridLayout,
)
    ensures
        ({
            let shell = ShellView::initial(buttons, auth).after(events);
            &&& shell.wf()
            &&& shell.buttons == buttons
            &&& shell.auth == auth
            &&& shell.frame(layout).cells.len() == buttons.len()
            &&& forall|i: int|
                0 <= i < buttons.len() ==> {
                    let cell = #[trigger] shell.frame(layout).cells[i];
                    &&& cell.index == i
                    &&& cell.label == buttons[i].name
                    &&& cell.requires_input == buttons[i].requires_input
                }
        }),
    decreases events.len(),
{
    let start = ShellView::initial(buttons, auth);
    if events.len() > 0 {
        lemma_every_frame_shows_the_entries(buttons, auth, events.drop_last(), layout);
        lemma_step_keeps_config(start.after(events.drop_last()), events.last());
    }
    lemma_frame_follows_config(start.after(events), layout);
}

/// A click on a button that asks for no input sends that button's redeem
/// with the word `undefined` in the input field.
pub proof fn lemma_plain_click_sends_undefined(shell: ShellView, index: int)
    requires
        0 <= index < shell.buttons.len(),
        !shell.buttons[index].requires_input,
    ensures
        shell.step(EventView::ButtonClicked(index)).1 matches ActionView::Dispatch(redeem) && {
            &&& redeem.button == shell.buttons[index]
            &&& redeem.auth == shell.auth
            &&& input_field(redeem.input) == "undefined"@
            &&& redeem.request() matches Ok(request) ==> {
                &&& request.form.len() == 2
                &&& request.form[0].name == "name"@
                &&& request.form[0].value == shell.buttons[index].api_name
                &&& request.form[1].name == "input"@
                &&& request.form[1].value == "undefined"@
            }
        },
{
}

/// Text typed into the popup of a button and submitted is sent, as it
/// stands, in the input field of that button's redeem; the popup is closed
/// afterwards.
pub proof fn lemma_submit_sends_typed_text(shell: ShellView, index: int, text: Seq<char>)
    requires
        shell.wf(),
        0 <= index < shell.buttons.len(),
        shell.buttons[index].requires_input,
        shell.open_popup != Some(index),
    ensures
        ({
            let opened = shell.step(EventView::ButtonClicked(index)).0;
            let typed = opened.step(EventView::InputChanged(text)).0;
            let (closed, action) = typed.step(EventView::SubmitClicked);
            &&& opened.open_popup == Some(index)
            &&& closed.open_popup is None
            &&& action matches ActionView::Dispatch(redeem) && {
                &&& redeem.button == shell.buttons[index]
                &&& redeem.auth == shell.auth
                &&& input_field(redeem.input) == text
                &&& redeem.request() matches Ok(request) ==> {
                    &&& request.form.len() == 2
                    &&& request.form[0].name == "name"@
                    &&& request.form[0].value == shell.buttons[index].api_name
                    &&& request.form[1].name == "input"@
                    &&& request.form[1].value == text
                }
            }
        }),
{
}

/// A redeem whose session cookies cannot travel as a header value ends as a
/// failure, and the status line then gives the account of it.
pub proof fn lemma_unfit_cookies_are_reported(
    shell: ShellView,
    redeem: RedemptionView,
)
    requires
        !is_header_value(redeem.auth.cookies),
    ensures
        redeem.request() matches Err(error) && shell.step(
            EventView::RedeemFinished(redeem.button.name, Err(error)),
        ).0.status_message == "Error: "@ + UNFIT_COOKIES@,
{
}

/// A popup that is dismissed sends nothing.
pub proof fn lemma_dismissal_sends_nothing(shell: ShellView)
    ensures
        shell.step(EventView::PopupDismissed).1 == ActionView::Nothing,
        shell.step(EventView::PopupDismissed).0.open_popup is None,
        shell.step(EventView::PopupDismissed).0.status_message == shell.status_message,
{
}

/// When the answer to a redeem comes, the status line is replaced: by
/// `Successfully redeemed ` and the button's text for a status of the
/// success range, and by a line that holds the status code for any other.
pub proof fn lemma_answer_sets_status(shell: ShellView, name: Seq<char>, code: u16)
    ensures
        ({
            let after = shell.step(EventView::RedeemFinished(name, outcome_of_status(code))).0;
            &&& is_success_status(code) ==> after.status_message == "Successfully redeemed "@ + name
            &&& !is_success_status(code) ==> occurs_in(decimal(code as nat), after.status_message)
        }),
{
    if !is_success_status(code) {
        lemma_failure_names_the_code(name, code);
    }
}

/// Every redeem that a panel with well-formed definitions sends names an
/// action.
pub proof fn lemma_dispatch_names_an_action(shell: ShellView, event: EventView)
    requires
        shell.wf(),
        all_wf(shell.buttons),
    ensures
        shell.step(event).1 matches ActionView::Dispatch(redeem) ==> redeem.button.api_name.len() > 0,
{
}

} // verus!
