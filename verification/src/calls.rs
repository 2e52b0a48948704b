//! What the handler of a window is told.

use vstd::prelude::*;

use crate::geometry::{Scale, ScaledArea, Size};
use crate::handle::WindowHandle;
use crate::input::MouseEvent;
use crate::keyboard::KeyEvent;
use crate::tokens::{FileDialogToken, TextFieldToken, TimerToken};

verus! {

/// A file that was chosen in a dialog.
#[derive(Debug, PartialEq, Eq)]
pub struct FileInfo {
    /// The bytes of the path.
    pub path: Vec<u8>,
    /// The number of the chosen file type, where the dialog tells it.
    pub format: Option<u64>,
}

/// A call of the window's handler.
#[derive(Debug)]
pub enum HandlerCall {
    /// The window exists.
    Connect(WindowHandle),
    /// The scale is this.
    Scale(Scale),
    /// The size is this, in display points.
    Size(Size),
    /// The size is that of the area, divided by its scale.
    AreaSize(ScaledArea),
    /// Painting is about to begin.
    PreparePaint,
    MouseDown(MouseEvent),
    MouseUp(MouseEvent),
    MouseMove(MouseEvent),
    Wheel(MouseEvent),
    /// A key went down while this text field had the focus.
    KeyDown(Option<TextFieldToken>, KeyEvent),
    KeyUp(KeyEvent),
    GotFocus,
    LostFocus,
    RequestClose,
    Destroy,
    Timer(TimerToken),
    /// The answer to a request to open a file: the file, unless none was chosen.
    OpenFile(FileDialogToken, Option<FileInfo>),
    /// The answer to a request to save a file: the file, unless none was chosen.
    SaveAs(FileDialogToken, Option<FileInfo>),
}

}
