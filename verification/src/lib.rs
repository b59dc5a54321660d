//! Core of an extensible host application: feature units ("plugins")
//! communicate exclusively through a typed command/event bus owned by a
//! central coordinator, which enforces FIFO dispatch order, plugin
//! lifecycle, re-entrancy-safe queuing, and a state-persistence contract.

pub mod commands;
pub mod coordinator;
pub mod counter;
pub mod dispatch;
pub mod extensions;
pub mod message_bus;
pub mod plugin;
pub mod plugins;
pub mod project_window;
pub mod value;

pub use commands::Command;
pub use commands::CoreError;
pub use commands::Envelope;
pub use commands::ICommand;
pub use commands::IEncode;
pub use coordinator::DesignerCore;
pub use coordinator::IHostNotifier;
pub use coordinator::NullNotifier;
pub use coordinator::PluginKind;
pub use coordinator::PluginSlot;
pub use counter::Counter;
pub use dispatch::Dispatcher;
pub use dispatch::HostRequest;
pub use message_bus::ISubscriber;
pub use message_bus::MessageBus;
pub use plugin::IPluginStateStorage;
pub use plugin::MemoryStorage;
pub use plugin::PluginInfo;
pub use plugin::PluginStatus;
pub use project_window::ProjectManagerWindow;
pub use project_window::WindowStatus;
pub use value::SpecValue;
pub use value::StructValue;
