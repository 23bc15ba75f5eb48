use relm_core::alert::{AlertModel, AlertMsg, AlertSettings, ResponseType};
use relm_core::channel::Channel;
use relm_core::counter::{CounterInput, CounterModel};

fn settings() -> AlertSettings {
    AlertSettings {
        text: String::from("Delete everything?"),
        secondary_text: Some(String::from("This cannot be undone.")),
        is_modal: true,
        destructive_accept: true,
        confirm_label: String::from("Delete"),
        cancel_label: String::from("Keep"),
        option_label: None,
    }
}

#[test]
fn starts_hidden_with_its_configuration() {
    let parent = CounterModel { count: 0 };
    let model = AlertModel::init_model(&parent, settings());
    assert!(!model.is_active());
    assert_eq!(model.settings().text, "Delete everything?");
    assert_eq!(model.settings().confirm_label, "Delete");
    assert!(model.settings().is_modal);
}

#[test]
fn show_displays_the_dialog_without_messaging_the_parent() {
    let parent = CounterModel { count: 0 };
    let mut model = AlertModel::init_model(&parent, settings());
    let mut own: Channel<AlertMsg> = Channel::new();
    let mut to_parent: Channel<CounterInput> = Channel::new();
    model.update::<CounterModel>(AlertMsg::Show, &(), &mut own, &mut to_parent);
    assert!(model.is_active());
    assert_eq!(to_parent.len(), 0);
    // Nothing is ever sent on the component's own channel either.
    assert_eq!(own.len(), 0);
}

#[test]
fn answer_after_parent_shutdown_is_dropped_silently() {
    let parent = CounterModel { count: 0 };
    let mut model = AlertModel::init_model(&parent, settings());
    let mut own: Channel<AlertMsg> = Channel::new();
    let mut to_parent: Channel<CounterInput> = Channel::new();
    model.update::<CounterModel>(AlertMsg::Show, &(), &mut own, &mut to_parent);
    // The parent terminates while the dialog is open; the answer arriving
    // afterwards is a no-op towards the parent, never fatal.
    to_parent.close();
    model.update::<CounterModel>(
        AlertMsg::Response(ResponseType::Accept),
        &(),
        &mut own,
        &mut to_parent,
    );
    assert!(!model.is_active());
    assert_eq!(to_parent.len(), 0);
    assert_eq!(own.len(), 0);
}

#[test]
fn each_answer_hides_the_dialog_and_maps_to_the_parent_message() {
    let parent = CounterModel { count: 0 };
    let mut model = AlertModel::init_model(&parent, settings());
    let mut own: Channel<AlertMsg> = Channel::new();
    let mut to_parent: Channel<CounterInput> = Channel::new();

    model.update::<CounterModel>(AlertMsg::Show, &(), &mut own, &mut to_parent);
    model.update::<CounterModel>(
        AlertMsg::Response(ResponseType::Accept),
        &(),
        &mut own,
        &mut to_parent,
    );
    assert!(!model.is_active());
    assert_eq!(to_parent.try_recv(), Some(CounterInput::Increment));

    model.update::<CounterModel>(
        AlertMsg::Response(ResponseType::Cancel),
        &(),
        &mut own,
        &mut to_parent,
    );
    assert_eq!(to_parent.try_recv(), Some(CounterInput::Decrement));

    model.update::<CounterModel>(
        AlertMsg::Response(ResponseType::Close),
        &(),
        &mut own,
        &mut to_parent,
    );
    assert_eq!(to_parent.try_recv(), Some(CounterInput::Decrement));

    model.update::<CounterModel>(
        AlertMsg::Response(ResponseType::Other(0)),
        &(),
        &mut own,
        &mut to_parent,
    );
    assert_eq!(to_parent.try_recv(), Some(CounterInput::Increment));
    assert_eq!(to_parent.try_recv(), None);
}
