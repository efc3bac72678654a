use vstd::prelude::*;

verus! {

/// Holds possible engine creation errors.
pub enum CreationErrors {
    /// Something went wrong while creating the renderer; the string holds a message.
    FailedToCreateRenderer(String),
    /// There was a problem with the asset manager or thread creation.
    FailedToCreateAssetManager,
    /// The engine couldn't start the input loop; the string holds a message.
    FailedToCreateInputManager(String),
    /// Something else happened.
    UnknownError,
}

/// Describes the current status of the engine.
pub enum EngineStatus {
    /// Used when starting normally.
    STARTING,
    RUNNING,
    /// Used when the engine is waiting for threads to end.
    WAITING,
    ENDING,
    /// Used when something goes wrong while creating the engine runtime.
    Aboarding(String),
}

impl EngineStatus {
    /// Whether the main loop has to stop: the engine is ending or aborting.
    pub fn should_end(&self) -> (r: bool)
        ensures
            r <==> (*self is ENDING || *self is Aboarding),
    {
        match self {
            EngineStatus::ENDING => true,
            EngineStatus::Aboarding(_) => true,
            _ => false,
        }
    }
}

/// The steps of building the engine that can fail, in the order they run.
#[derive(Clone, Copy, PartialEq, Eq, Structural, Debug)]
pub enum CreationStage {
    /// Creating the Vulkan instance.
    Instance,
    /// Starting the input system and its window.
    InputSystem,
    /// Building the renderer on the window.
    Renderer,
}

/// The error the engine reports when `stage` fails with `message`: a failing
/// instance or renderer is a renderer error, a failing input system an input error.
pub fn creation_error(stage: CreationStage, message: String) -> (e: CreationErrors)
    ensures
        match stage {
            CreationStage::Instance => e == CreationErrors::FailedToCreateRenderer(message),
            CreationStage::InputSystem => e == CreationErrors::FailedToCreateInputManager(message),
            CreationStage::Renderer => e == CreationErrors::FailedToCreateRenderer(message),
        },
{
    match stage {
        CreationStage::Instance => CreationErrors::FailedToCreateRenderer(message),
        CreationStage::InputSystem => CreationErrors::FailedToCreateInputManager(message),
        CreationStage::Renderer => CreationErrors::FailedToCreateRenderer(message),
    }
}

} // verus!
