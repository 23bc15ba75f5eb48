//! The capability traits collaborator code implements around a component:
//! the model family and the view ("Widgets") capability the runtime drives.
//!
//! The runtime never reads toolkit state; it only asks a `Widgets`
//! implementation to build itself from a model, to connect itself to a
//! parent's view, to expose a root handle for composition, and to refresh
//! itself from the current model. The unit type implements every capability,
//! for components without view state or subcomponents.

use vstd::prelude::*;

use crate::channel::Channel;

verus! {

/// The model family of a component: its message type, its view capability,
/// its subcomponents, and the settings its initial model is built from.
pub trait Model: Sized {
    /// The message type of the model.
    type Msg;
    /// The widgets type of the model.
    type Widgets;
    /// The components type of the model.
    type Components;
    /// The settings the initial model is built from.
    type Settings;
}

impl Model for () {
    type Msg = ();

    type Widgets = ();

    type Components = ();

    type Settings = ();
}

/// The view capability of a component: everything the runtime asks of
/// toolkit-owned view state. `ModelType` is the component's own model,
/// `ParentModel` the model of the component it is docked into.
pub trait Widgets<ModelType: Model, ParentModel: Model>: Sized {
    /// The root widget handle exposed for composition.
    type Root;

    /// Builds the view from the initial model; `sender` lets view event
    /// handlers enqueue messages for the component.
    fn init_view(
        model: &ModelType,
        components: &ModelType::Components,
        sender: &mut Channel<ModelType::Msg>,
    ) -> Self;

    /// Connects the view to the parent's view.
    fn connect_parent(&self, parent_widgets: &ParentModel::Widgets);

    /// The root widget handle.
    fn root_widget(&self) -> Self::Root;

    /// Refreshes the view from the current model; called once after every
    /// update step.
    fn view(&mut self, model: &ModelType, sender: &mut Channel<ModelType::Msg>);
}

impl<ModelType, ParentModel> Widgets<ModelType, ParentModel> for () where
    ModelType: Model<Widgets = ()>,
    ParentModel: Model,
 {
    type Root = ();

    fn init_view(
        _model: &ModelType,
        _components: &ModelType::Components,
        _sender: &mut Channel<ModelType::Msg>,
    ) -> Self {
    }

    fn connect_parent(&self, _parent_widgets: &ParentModel::Widgets) {
    }

    fn root_widget(&self) -> Self::Root {
    }

    fn view(&mut self, _model: &ModelType, _sender: &mut Channel<ModelType::Msg>) {
    }
}

/// The subcomponents docked into a component of model `ParentModel`.
pub trait Components<ParentModel: Model>: Sized {
    /// Builds every subcomponent of the parent.
    fn init_components(
        parent_model: &ParentModel,
        sender: &mut Channel<ParentModel::Msg>,
    ) -> Self;

    /// Connects every subcomponent to the parent's view.
    fn connect_parent(&mut self, parent_widgets: &ParentModel::Widgets);
}

impl<ParentModel: Model> Components<ParentModel> for () {
    fn init_components(
        _parent_model: &ParentModel,
        _sender: &mut Channel<ParentModel::Msg>,
    ) -> Self {
    }

    fn connect_parent(&mut self, _parent_widgets: &ParentModel::Widgets) {
    }
}

} // verus!
