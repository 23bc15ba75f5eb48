//! Reusable and easily configurable alert component.
//!
//! The model and update logic of a confirmation dialog: the parent shows it,
//! the user answers, and the answer is mapped — through the
//! [`AlertParent`] capability — into a message the parent model understands.
//! The dialog widgets themselves are toolkit-owned and live with the
//! collaborator code that drives this model; the user's answer reaches the
//! model as a plain [`ResponseType`].

use vstd::prelude::*;

use crate::channel::Channel;
use crate::traits::Model;

verus! {

/// A dialog answer, as the toolkit reports it: the accept button, a
/// numbered extra button, or any of the ways to decline (cancel, close, a
/// dismissed dialog).
#[derive(Clone, Copy, Debug, PartialEq, Eq, Structural)]
pub enum ResponseType {
    /// The accept button was pressed.
    Accept,
    /// The extra button with the given number was pressed.
    Other(u16),
    /// The cancel button was pressed.
    Cancel,
    /// The dialog was closed.
    Close,
    /// The dialog was dismissed.
    DeleteEvent,
}

/// Configuration for the alert dialog component.
#[derive(Clone, Debug)]
pub struct AlertSettings {
    /// Large text.
    pub text: String,
    /// Optional secondary, smaller text.
    pub secondary_text: Option<String>,
    /// Modal dialogs freeze other windows as long they are visible.
    pub is_modal: bool,
    /// Sets color of the accept button to red if the theme supports it.
    pub destructive_accept: bool,
    /// Text for confirm button.
    pub confirm_label: String,
    /// Text for cancel button.
    pub cancel_label: String,
    /// Text for third option button. If [`None`] the third button won't be
    /// created.
    pub option_label: Option<String>,
}

/// Model of the alert dialog component.
pub struct AlertModel {
    settings: AlertSettings,
    is_active: bool,
}

impl Model for AlertModel {
    type Msg = AlertMsg;

    type Widgets = ();

    type Components = ();

    type Settings = AlertSettings;
}

/// Messages that can be sent to the alert dialog component.
pub enum AlertMsg {
    /// Message sent by the parent to view the dialog.
    Show,
    /// The user's answer, reported by the dialog.
    Response(ResponseType),
}

/// Interface for the parent model: how each dialog answer is translated
/// into a message of the parent's own message type.
pub trait AlertParent: Model {
    /// The message [`confirm_msg`](Self::confirm_msg) returns.
    spec fn confirm_msg_spec() -> Self::Msg;

    /// The message [`cancel_msg`](Self::cancel_msg) returns.
    spec fn cancel_msg_spec() -> Self::Msg;

    /// The message [`option_msg`](Self::option_msg) returns.
    spec fn option_msg_spec() -> Self::Msg;

    /// Message sent to parent if user clicks confirm button.
    fn confirm_msg() -> (m: Self::Msg)
        ensures
            m == Self::confirm_msg_spec(),
    ;

    /// Message sent to parent if user clicks cancel button.
    fn cancel_msg() -> (m: Self::Msg)
        ensures
            m == Self::cancel_msg_spec(),
    ;

    /// Message sent to parent if user clicks third option button.
    fn option_msg() -> (m: Self::Msg)
        ensures
            m == Self::option_msg_spec(),
    ;
}

impl AlertParent for () {
    open spec fn confirm_msg_spec() -> () {
        ()
    }

    open spec fn cancel_msg_spec() -> () {
        ()
    }

    open spec fn option_msg_spec() -> () {
        ()
    }

    fn confirm_msg() -> () {
    }

    fn cancel_msg() -> () {
    }

    fn option_msg() -> () {
    }
}

/// The parent message one dialog answer translates to: accept confirms, a
/// numbered extra button picks the third option, everything else cancels.
pub open spec fn spec_response_msg<P: AlertParent>(ty: ResponseType) -> P::Msg {
    match ty {
        ResponseType::Accept => P::confirm_msg_spec(),
        ResponseType::Other(_) => P::option_msg_spec(),
        _ => P::cancel_msg_spec(),
    }
}

impl AlertModel {
    /// The model after one update step: `Show` makes the dialog visible, an
    /// answer hides it; the configuration never changes.
    pub closed spec fn spec_update(self, msg: AlertMsg) -> AlertModel {
        AlertModel { is_active: msg is Show, ..self }
    }

    /// The model after one update step per message, front to back.
    pub open spec fn spec_update_all(self, msgs: Seq<AlertMsg>) -> AlertModel
        decreases msgs.len(),
    {
        if msgs.len() == 0 {
            self
        } else {
            self.spec_update(msgs[0]).spec_update_all(msgs.drop_first())
        }
    }

    /// The messages one update step sends to the parent: none for `Show`,
    /// the translated answer for a response.
    pub open spec fn spec_emitted<P: AlertParent>(msg: AlertMsg) -> Seq<P::Msg> {
        match msg {
            AlertMsg::Show => Seq::empty(),
            AlertMsg::Response(ty) => seq![spec_response_msg::<P>(ty)],
        }
    }

    /// Whether the dialog is currently shown.
    pub fn is_active(&self) -> (r: bool)
        ensures
            r == self.spec_is_active(),
    {
        self.is_active
    }

    /// Whether the dialog is currently shown.
    pub closed spec fn spec_is_active(&self) -> bool {
        self.is_active
    }

    /// The configuration the model was built with.
    pub fn settings(&self) -> (s: &AlertSettings)
        ensures
            *s == self.spec_settings(),
    {
        &self.settings
    }

    /// The configuration the model was built with.
    pub closed spec fn spec_settings(&self) -> AlertSettings {
        self.settings
    }

    /// Builds the initial model from the parent's state and the dialog
    /// configuration; the dialog starts hidden.
    pub fn init_model<P: AlertParent>(_parent_model: &P, settings: AlertSettings) -> (m:
        AlertModel)
        ensures
            m.spec_settings() == settings,
            !m.spec_is_active(),
    {
        AlertModel { settings, is_active: false }
    }

    /// One update step. `Show` makes the dialog visible; an answer hides it
    /// and forwards the translated message to the parent. Nothing is ever
    /// sent on the component's own channel. If the parent has already shut
    /// down, the answer is dropped silently — a no-op, never fatal.
    pub fn update<P: AlertParent>(
        &mut self,
        msg: AlertMsg,
        _components: &(),
        _sender: &mut Channel<AlertMsg>,
        parent_sender: &mut Channel<P::Msg>,
    )
        ensures
            *final(self) == old(self).spec_update(msg),
            final(self).spec_is_active() == (msg is Show),
            final(self).spec_settings() == old(self).spec_settings(),
            *final(_sender) == *old(_sender),
            final(parent_sender).is_closed() == old(parent_sender).is_closed(),
            !old(parent_sender).is_closed() ==> final(parent_sender).pending()
                == old(parent_sender).pending() + AlertModel::spec_emitted::<P>(msg),
            old(parent_sender).is_closed() ==> final(parent_sender).pending()
                == old(parent_sender).pending(),
    {
        match msg {
            AlertMsg::Show => {
                self.is_active = true;
                proof {
                    if !old(parent_sender).is_closed() {
                        assert(parent_sender.pending() =~= old(parent_sender).pending()
                            + AlertModel::spec_emitted::<P>(msg));
                    }
                }
            },
            AlertMsg::Response(ty) => {
                self.is_active = false;
                let m = match ty {
                    ResponseType::Accept => P::confirm_msg(),
                    ResponseType::Other(_) => P::option_msg(),
                    _ => P::cancel_msg(),
                };
                let _ = parent_sender.send(m);
                proof {
                    if !old(parent_sender).is_closed() {
                        assert(parent_sender.pending() =~= old(parent_sender).pending()
                            + AlertModel::spec_emitted::<P>(msg));
                    }
                }
            },
        }
    }
}

/// Law: the dialog model folds over its messages one update step at a
/// time, in send order — after any sequence of messages it is visible
/// exactly when the last one was `Show`, and its configuration is exactly
/// what it was built with.
pub proof fn lemma_alert_updates_fold_in_order(m: AlertModel, msgs: Seq<AlertMsg>)
    requires
        msgs.len() > 0,
    ensures
        m.spec_update_all(msgs).spec_is_active() == (msgs.last() is Show),
        m.spec_update_all(msgs).spec_settings() == m.spec_settings(),
    decreases msgs.len(),
{
    if msgs.len() == 1 {
        assert(m.spec_update(msgs[0]).spec_update_all(msgs.drop_first()) == m.spec_update(
            msgs[0],
        ));
        assert(msgs[0] == msgs.last());
    } else {
        assert(msgs.drop_first().last() == msgs.last());
        lemma_alert_updates_fold_in_order(m.spec_update(msgs[0]), msgs.drop_first());
    }
}

} // verus!
