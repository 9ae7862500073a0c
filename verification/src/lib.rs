//! Select-and-translate: the decision logic of a desktop helper that
//! captures the selected text, sends it to a translation provider and
//! shows the result near the cursor or in the main window.

pub mod atalhos;
pub mod captura;
pub mod configuracao;
pub mod notificacao;
pub mod popover;
pub mod texto;
pub mod traducao;
