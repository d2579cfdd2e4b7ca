//! Decision logic of a desktop automation agent: how accessibility elements
//! are read and flattened, how a batch of user-interface actions turns into
//! mouse and keyboard steps, and how a screen-capture round is carried out and
//! reported.  Everything that touches the screen, the mouse, the keyboard or an
//! outside process happens in the program around this library.
pub mod accessibility;
pub mod automation;
pub mod ingestion;
pub mod text;
pub mod vision;
