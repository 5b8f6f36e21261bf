//! The exported operations of the `pyxel` module as decisions: each says
//! which calls the host is to make on the engine, and leaves making them to
//! the host.

use vstd::prelude::*;
use vstd::string::*;

verus! {

/// A call on the engine.
#[derive(Clone, Debug, PartialEq, Eq)]
pub enum EngineCall {
    /// Start the engine with a screen of this size.
    Init { width: u32, height: u32 },
    /// Clear the screen with a colour.
    Cls { color: u8 },
    /// Draw the outline of a circle.
    Circb { x: i32, y: i32, radius: i32, color: u8 },
    /// Show the screen.
    Show,
    /// Load a resource file. Each option that is `None` is left to the engine.
    Load {
        filename: String,
        excl_images: Option<bool>,
        excl_tilemaps: Option<bool>,
        excl_sounds: Option<bool>,
        excl_musics: Option<bool>,
        incl_colors: Option<bool>,
        incl_channels: Option<bool>,
        incl_tones: Option<bool>,
    },
}

/// What an [`EngineCall`] stands for.
pub enum EngineCallView {
    Init { width: u32, height: u32 },
    Cls { color: u8 },
    Circb { x: i32, y: i32, radius: i32, color: u8 },
    Show,
    Load {
        filename: Seq<char>,
        excl_images: Option<bool>,
        excl_tilemaps: Option<bool>,
        excl_sounds: Option<bool>,
        excl_musics: Option<bool>,
        incl_colors: Option<bool>,
        incl_channels: Option<bool>,
        incl_tones: Option<bool>,
    },
}

impl View for EngineCall {
    type V = EngineCallView;

    open spec fn view(&self) -> EngineCallView {
        match self {
            EngineCall::Init { width, height } => EngineCallView::Init {
                width: *width,
                height: *height,
            },
            EngineCall::Cls { color } => EngineCallView::Cls { color: *color },
            EngineCall::Circb { x, y, radius, color } => EngineCallView::Circb {
                x: *x,
                y: *y,
                radius: *radius,
                color: *color,
            },
            EngineCall::Show => EngineCallView::Show,
            EngineCall::Load {
                filename,
                excl_images,
                excl_tilemaps,
                excl_sounds,
                excl_musics,
                incl_colors,
                incl_channels,
                incl_tones,
            } => EngineCallView::Load {
                filename: filename@,
                excl_images: *excl_images,
                excl_tilemaps: *excl_tilemaps,
                excl_sounds: *excl_sounds,
                excl_musics: *excl_musics,
                incl_colors: *incl_colors,
                incl_channels: *incl_channels,
                incl_tones: *incl_tones,
            },
        }
    }
}

impl DeepView for EngineCall {
    type V = EngineCallView;

    open spec fn deep_view(&self) -> EngineCallView {
        self@
    }
}

/// Whether the engine has been started.
#[derive(Clone, Copy, Debug, PartialEq, Eq, Structural)]
pub struct Session {
    pub started: bool,
}

impl Session {
    /// A session whose engine has not been started.
    pub fn new() -> (s: Session)
        ensures
            !s.started,
    {
        Session { started: false }
    }
}

/// The calls that clearing the screen makes on a started engine.
pub open spec fn cls_calls(color: u8) -> Seq<EngineCallView> {
    seq![
        EngineCallView::Cls { color },
        EngineCallView::Circb { x: 30, y: 30, radius: 20, color: 7 },
        EngineCallView::Show,
    ]
}

/// Starts the engine with a screen of the given size: the session is started
/// afterwards, whatever it was before.
pub fn init(session: &mut Session, width: u32, height: u32) -> (calls: Vec<EngineCall>)
    ensures
        final(session).started,
        calls.deep_view() == seq![EngineCallView::Init { width, height }],
{
    session.started = true;
    let mut calls: Vec<EngineCall> = Vec::new();
    calls.push(EngineCall::Init { width, height });
    assert(calls.deep_view() =~= seq![EngineCallView::Init { width, height }]);
    calls
}

/// Clears the screen with a colour, draws the marker circle and shows the
/// screen. Before the engine is started it makes no call.
pub fn cls(session: &Session, color: u8) -> (calls: Vec<EngineCall>)
    ensures
        calls.deep_view() == if session.started {
            cls_calls(color)
        } else {
            Seq::empty()
        },
{
    let mut calls: Vec<EngineCall> = Vec::new();
    if session.started {
        calls.push(EngineCall::Cls { color });
        calls.push(EngineCall::Circb { x: 30, y: 30, radius: 20, color: 7 });
        calls.push(EngineCall::Show);
        assert(calls.deep_view() =~= cls_calls(color));
    } else {
        assert(calls.deep_view() =~= Seq::empty());
    }
    calls
}

/// Loads a resource file with the given options. Before the engine is
/// started it makes no call.
pub fn load(
    session: &Session,
    filename: &str,
    excl_images: Option<bool>,
    excl_tilemaps: Option<bool>,
    excl_sounds: Option<bool>,
    excl_musics: Option<bool>,
    incl_colors: Option<bool>,
    incl_channels: Option<bool>,
    incl_tones: Option<bool>,
) -> (calls: Vec<EngineCall>)
    ensures
        calls.deep_view() == if session.started {
            seq![
                EngineCallView::Load {
                    filename: filename@,
                    excl_images,
                    excl_tilemaps,
                    excl_sounds,
                    excl_musics,
                    incl_colors,
                    incl_channels,
                    incl_tones,
                },
            ]
        } else {
            Seq::empty()
        },
{
    let mut calls: Vec<EngineCall> = Vec::new();
    if session.started {
        calls.push(
            EngineCall::Load {
                filename: String::from_str(filename),
                excl_images,
                excl_tilemaps,
                excl_sounds,
                excl_musics,
                incl_colors,
                incl_channels,
                incl_tones,
            },
        );
        assert(calls.deep_view() =~= seq![
            EngineCallView::Load {
                filename: filename@,
                excl_images,
                excl_tilemaps,
                excl_sounds,
                excl_musics,
                incl_colors,
                incl_channels,
                incl_tones,
            },
        ]);
    } else {
        assert(calls.deep_view() =~= Seq::empty());
    }
    calls
}

/// An image of the engine, as far as the exported operations read it: its size.
#[derive(Clone, Copy, Debug, PartialEq, Eq, Structural)]
pub struct Image {
    width: u32,
    height: u32,
}

impl Image {
    /// An image of the given size.
    pub fn new(width: u32, height: u32) -> (image: Image)
        ensures
            image.spec_width() == width,
            image.spec_height() == height,
    {
        Image { width, height }
    }

    /// The image's width.
    pub closed spec fn spec_width(&self) -> u32 {
        self.width
    }

    /// The image's height.
    pub closed spec fn spec_height(&self) -> u32 {
        self.height
    }

    /// The image's width.
    pub fn width(&self) -> (w: u32)
        ensures
            w == self.spec_width(),
    {
        self.width
    }

    /// The image's height.
    pub fn height(&self) -> (h: u32)
        ensures
            h == self.spec_height(),
    {
        self.height
    }
}

/// A handle on the engine's images, in the engine's order.
#[derive(Clone, Debug)]
pub struct ImageList {
    inner: Vec<Image>,
}

impl View for ImageList {
    type V = Seq<Image>;

    closed spec fn view(&self) -> Seq<Image> {
        self.inner@
    }
}

impl ImageList {
    /// A handle on these images.
    pub fn wrap(inner: Vec<Image>) -> (list: ImageList)
        ensures
            list@ == inner@,
    {
        ImageList { inner }
    }

    /// The number of images.
    pub fn len(&self) -> (n: usize)
        ensures
            n == self@.len(),
    {
        self.inner.len()
    }

    /// The image at position `index`.
    pub fn get(&self, index: usize) -> (image: Image)
        requires
            index < self@.len(),
        ensures
            image == self@[index as int],
    {
        self.inner[index]
    }
}

} // verus!
