//! The kinds of child window the gallery binary can be run as (`--child --type <kind>`).
use vstd::prelude::*;
use crate::text::{text_eq, ascii_lower};

verus! {

/// What a child window is, from `--type`. The first seven are the kinds of surface a
/// toolkit client can be under cce; the last two are the gallery's editor windows.
#[derive(Debug, Clone, Copy, PartialEq, Eq, Structural)]
pub enum ChildKind {
    Floating,
    Fullscreen,
    Utility,
    LayerTop,
    LayerOverlay,
    LayerBackground,
    Status,
    Ramp,
    ColorRamp,
}

/// The `--type` spelling of a kind.
pub open spec fn arg_text(k: ChildKind) -> Seq<char> {
    match k {
        ChildKind::Floating => "Floating"@,
        ChildKind::Fullscreen => "Fullscreen"@,
        ChildKind::Utility => "Utility"@,
        ChildKind::LayerTop => "LayerTop"@,
        ChildKind::LayerOverlay => "LayerOverlay"@,
        ChildKind::LayerBackground => "LayerBackground"@,
        ChildKind::Status => "Status"@,
        ChildKind::Ramp => "Ramp"@,
        ChildKind::ColorRamp => "ColorRamp"@,
    }
}

/// The window title of a kind.
pub open spec fn title_text(k: ChildKind) -> Seq<char> {
    match k {
        ChildKind::Floating => "Floating Window"@,
        ChildKind::Fullscreen => "Fullscreen Window"@,
        ChildKind::Utility => "Utility Window"@,
        ChildKind::LayerTop => "Layer Shell (Top) Surface"@,
        ChildKind::LayerOverlay => "Layer Shell (Overlay) Surface"@,
        ChildKind::LayerBackground => "Layer Shell (Background) Surface"@,
        ChildKind::Status => "Status Segment"@,
        ChildKind::Ramp => "Ramp Editor"@,
        ChildKind::ColorRamp => "Color Ramp Editor"@,
    }
}

/// The one-line description shown inside a test window; the editors show none.
pub open spec fn child_text_of(k: ChildKind) -> Seq<char> {
    match k {
        ChildKind::Floating => "A plain xdg_toplevel, mapped Floating by cce."@,
        ChildKind::Fullscreen => "An xdg_toplevel that asked for fullscreen at map."@,
        ChildKind::Utility => "A toplevel declared UTILITY over the cce protocol."@,
        ChildKind::LayerTop => "A Top-layer wlr-layer-shell surface with an exclusive zone."@,
        ChildKind::LayerOverlay => "An Overlay-layer wlr-layer-shell surface, unanchored."@,
        ChildKind::LayerBackground => "A Background-layer wlr-layer-shell surface."@,
        ChildKind::Status => "A cce-status-* toplevel, docked into the status bar."@,
        ChildKind::Ramp | ChildKind::ColorRamp => ""@,
    }
}

/// The app_id of a kind: the compositor's status-bar convention for Status, otherwise
/// `cce-gallery-child-` followed by the lower-cased `--type` spelling.
pub open spec fn app_id_text(k: ChildKind) -> Seq<char> {
    match k {
        ChildKind::Status => "cce-status-right-gallery"@,
        _ => "cce-gallery-child-"@ + ascii_lower(arg_text(k)),
    }
}

/// Whether a kind is one of the two editor windows.
pub open spec fn is_editor_kind(k: ChildKind) -> bool {
    k == ChildKind::Ramp || k == ChildKind::ColorRamp
}

/// The kind whose `--type` spelling is `t`, if any.
pub open spec fn kind_named(t: Seq<char>) -> Option<ChildKind> {
    if t == "Floating"@ {
        Some(ChildKind::Floating)
    } else if t == "Fullscreen"@ {
        Some(ChildKind::Fullscreen)
    } else if t == "Utility"@ {
        Some(ChildKind::Utility)
    } else if t == "LayerTop"@ {
        Some(ChildKind::LayerTop)
    } else if t == "LayerOverlay"@ {
        Some(ChildKind::LayerOverlay)
    } else if t == "LayerBackground"@ {
        Some(ChildKind::LayerBackground)
    } else if t == "Status"@ {
        Some(ChildKind::Status)
    } else if t == "Ramp"@ {
        Some(ChildKind::Ramp)
    } else if t == "ColorRamp"@ {
        Some(ChildKind::ColorRamp)
    } else {
        None
    }
}

/// Which wlr-layer-shell layer a surface asks for.
#[derive(Debug, Clone, Copy, PartialEq, Eq, Structural)]
pub enum LayerLevel {
    Background,
    Bottom,
    Top,
    Overlay,
}

/// The screen edges a layer surface is anchored to.
#[derive(Debug, Clone, Copy, PartialEq, Eq, Structural)]
pub struct Anchor {
    pub top: bool,
    pub bottom: bool,
    pub left: bool,
    pub right: bool,
}

/// The wlr-layer-shell configuration of a layer kind: its layer, anchor edges and
/// exclusive zone; no keyboard interactivity, no margins, namespace `cce-gallery`.
#[derive(Debug)]
pub struct LayerPlan {
    pub level: LayerLevel,
    pub anchor: Anchor,
    pub exclusive_zone: i32,
    pub keyboard_interactive: bool,
    pub margin: (i32, i32, i32, i32),
    pub namespace: String,
}

/// The layer-shell settings of a kind whose window is `height` high, as
/// (layer, anchor, exclusive zone); `None` for the kinds that are not layer surfaces.
pub open spec fn layer_of(k: ChildKind, height: i32) -> Option<(LayerLevel, Anchor, i32)> {
    match k {
        ChildKind::LayerTop => Some(
            (LayerLevel::Top, Anchor { top: true, bottom: false, left: true, right: true }, height),
        ),
        ChildKind::LayerOverlay => Some(
            (LayerLevel::Overlay, Anchor { top: false, bottom: false, left: false, right: false }, 0i32),
        ),
        ChildKind::LayerBackground => Some(
            (LayerLevel::Background, Anchor { top: true, bottom: true, left: true, right: true }, -1i32),
        ),
        _ => None,
    }
}

impl ChildKind {
    /// Reads a `--type` value; `None` for any other text.
    pub fn from_arg(s: &str) -> (r: Option<ChildKind>)
        ensures
            r == kind_named(s@),
    {
        if text_eq(s, "Floating") {
            Some(ChildKind::Floating)
        } else if text_eq(s, "Fullscreen") {
            Some(ChildKind::Fullscreen)
        } else if text_eq(s, "Utility") {
            Some(ChildKind::Utility)
        } else if text_eq(s, "LayerTop") {
            Some(ChildKind::LayerTop)
        } else if text_eq(s, "LayerOverlay") {
            Some(ChildKind::LayerOverlay)
        } else if text_eq(s, "LayerBackground") {
            Some(ChildKind::LayerBackground)
        } else if text_eq(s, "Status") {
            Some(ChildKind::Status)
        } else if text_eq(s, "Ramp") {
            Some(ChildKind::Ramp)
        } else if text_eq(s, "ColorRamp") {
            Some(ChildKind::ColorRamp)
        } else {
            None
        }
    }

    /// The `--type` spelling.
    pub fn arg(self) -> (r: &'static str)
        ensures
            r@ == arg_text(self),
    {
        match self {
            ChildKind::Floating => "Floating",
            ChildKind::Fullscreen => "Fullscreen",
            ChildKind::Utility => "Utility",
            ChildKind::LayerTop => "LayerTop",
            ChildKind::LayerOverlay => "LayerOverlay",
            ChildKind::LayerBackground => "LayerBackground",
            ChildKind::Status => "Status",
            ChildKind::Ramp => "Ramp",
            ChildKind::ColorRamp => "ColorRamp",
        }
    }

    /// The window title.
    pub fn title(self) -> (r: &'static str)
        ensures
            r@ == title_text(self),
    {
        match self {
            ChildKind::Floating => "Floating Window",
            ChildKind::Fullscreen => "Fullscreen Window",
            ChildKind::Utility => "Utility Window",
            ChildKind::LayerTop => "Layer Shell (Top) Surface",
            ChildKind::LayerOverlay => "Layer Shell (Overlay) Surface",
            ChildKind::LayerBackground => "Layer Shell (Background) Surface",
            ChildKind::Status => "Status Segment",
            ChildKind::Ramp => "Ramp Editor",
            ChildKind::ColorRamp => "Color Ramp Editor",
        }
    }

    /// Whether this is one of the two editor windows (Ramp, ColorRamp).
    pub fn is_editor(self) -> (r: bool)
        ensures
            r == is_editor_kind(self),
    {
        matches!(self, ChildKind::Ramp | ChildKind::ColorRamp)
    }

    /// The window size a kind opens at when no `--width`/`--height` pair is given,
    /// in logical pixels.
    pub fn default_size(self) -> (r: (u32, u32))
        ensures
            r == (match self {
                ChildKind::Floating | ChildKind::Fullscreen => (400u32, 250u32),
                ChildKind::Utility | ChildKind::LayerOverlay => (300u32, 180u32),
                ChildKind::LayerTop => (800u32, 40u32),
                ChildKind::LayerBackground => (800u32, 600u32),
                ChildKind::Status => (140u32, 24u32),
                ChildKind::Ramp | ChildKind::ColorRamp => (450u32, 350u32),
            }),
    {
        match self {
            ChildKind::Floating | ChildKind::Fullscreen => (400, 250),
            ChildKind::Utility | ChildKind::LayerOverlay => (300, 180),
            ChildKind::LayerTop => (800, 40),
            ChildKind::LayerBackground => (800, 600),
            ChildKind::Status => (140, 24),
            ChildKind::Ramp | ChildKind::ColorRamp => (450, 350),
        }
    }

    /// `cce-status-*` is the compositor's status-bar convention, with the edge read from
    /// the `-left-` / `-right-` infix; everything else is `cce-gallery-child-<type>`.
    pub fn app_id(self) -> (r: String)
        ensures
            r@ == app_id_text(self),
    {
        proof {
            reveal_strlit("cce-gallery-child-");
            reveal_strlit("Floating");
            reveal_strlit("Fullscreen");
            reveal_strlit("Utility");
            reveal_strlit("LayerTop");
            reveal_strlit("LayerOverlay");
            reveal_strlit("LayerBackground");
            reveal_strlit("Ramp");
            reveal_strlit("ColorRamp");
        }
        match self {
            ChildKind::Status => String::from_str("cce-status-right-gallery"),
            ChildKind::Floating => {
                proof { reveal_strlit("cce-gallery-child-floating"); }
                assert("cce-gallery-child-floating"@ =~= app_id_text(self));
                String::from_str("cce-gallery-child-floating")
            },
            ChildKind::Fullscreen => {
                proof { reveal_strlit("cce-gallery-child-fullscreen"); }
                assert("cce-gallery-child-fullscreen"@ =~= app_id_text(self));
                String::from_str("cce-gallery-child-fullscreen")
            },
            ChildKind::Utility => {
                proof { reveal_strlit("cce-gallery-child-utility"); }
                assert("cce-gallery-child-utility"@ =~= app_id_text(self));
                String::from_str("cce-gallery-child-utility")
            },
            ChildKind::LayerTop => {
                proof { reveal_strlit("cce-gallery-child-layertop"); }
                assert("cce-gallery-child-layertop"@ =~= app_id_text(self));
                String::from_str("cce-gallery-child-layertop")
            },
            ChildKind::LayerOverlay => {
                proof { reveal_strlit("cce-gallery-child-layeroverlay"); }
                assert("cce-gallery-child-layeroverlay"@ =~= app_id_text(self));
                String::from_str("cce-gallery-child-layeroverlay")
            },
            ChildKind::LayerBackground => {
                proof { reveal_strlit("cce-gallery-child-layerbackground"); }
                assert("cce-gallery-child-layerbackground"@ =~= app_id_text(self));
                String::from_str("cce-gallery-child-layerbackground")
            },
            ChildKind::Ramp => {
                proof { reveal_strlit("cce-gallery-child-ramp"); }
                assert("cce-gallery-child-ramp"@ =~= app_id_text(self));
                String::from_str("cce-gallery-child-ramp")
            },
            ChildKind::ColorRamp => {
                proof { reveal_strlit("cce-gallery-child-colorramp"); }
                assert("cce-gallery-child-colorramp"@ =~= app_id_text(self));
                String::from_str("cce-gallery-child-colorramp")
            },
        }
    }

    /// The wlr-layer-shell configuration for the three layer kinds: Top anchored
    /// left-top-right with an exclusive zone of the window's height, Overlay unanchored,
    /// Background on every edge.
    pub fn layer(self, height: i32) -> (r: Option<LayerPlan>)
        ensures
            match layer_of(self, height) {
                None => r is None,
                Some((level, anchor, zone)) => r matches Some(p) && p.level == level
                    && p.anchor == anchor && p.exclusive_zone == zone
                    && !p.keyboard_interactive && p.margin == (0i32, 0i32, 0i32, 0i32)
                    && p.namespace@ == "cce-gallery"@,
            },
    {
        let (level, anchor, exclusive_zone) = match self {
            ChildKind::LayerTop => (
                LayerLevel::Top,
                Anchor { top: true, bottom: false, left: true, right: true },
                height,
            ),
            ChildKind::LayerOverlay => (
                LayerLevel::Overlay,
                Anchor { top: false, bottom: false, left: false, right: false },
                0,
            ),
            ChildKind::LayerBackground => (
                LayerLevel::Background,
                Anchor { top: true, bottom: true, left: true, right: true },
                -1,
            ),
            _ => return None,
        };
        Some(LayerPlan {
            level,
            anchor,
            exclusive_zone,
            keyboard_interactive: false,
            margin: (0, 0, 0, 0),
            namespace: String::from_str("cce-gallery"),
        })
    }

    /// The line inside the child window.
    pub fn child_text(self) -> (r: &'static str)
        ensures
            r@ == child_text_of(self),
    {
        match self {
            ChildKind::Floating => "A plain xdg_toplevel, mapped Floating by cce.",
            ChildKind::Fullscreen => "An xdg_toplevel that asked for fullscreen at map.",
            ChildKind::Utility => "A toplevel declared UTILITY over the cce protocol.",
            ChildKind::LayerTop => "A Top-layer wlr-layer-shell surface with an exclusive zone.",
            ChildKind::LayerOverlay => "An Overlay-layer wlr-layer-shell surface, unanchored.",
            ChildKind::LayerBackground => "A Background-layer wlr-layer-shell surface.",
            ChildKind::Status => "A cce-status-* toplevel, docked into the status bar.",
            ChildKind::Ramp | ChildKind::ColorRamp => "",
        }
    }
}

/// The lengths and first letters of the `--type` spellings, which tell them apart.
proof fn lemma_arg_text_shape()
    ensures
        "Floating"@.len() == 8 && "Floating"@[0] == 'F',
        "Fullscreen"@.len() == 10,
        "Utility"@.len() == 7,
        "LayerTop"@.len() == 8 && "LayerTop"@[0] == 'L',
        "LayerOverlay"@.len() == 12,
        "LayerBackground"@.len() == 15,
        "Status"@.len() == 6,
        "Ramp"@.len() == 4,
        "ColorRamp"@.len() == 9,
{
    reveal_strlit("Floating");
    reveal_strlit("Fullscreen");
    reveal_strlit("Utility");
    reveal_strlit("LayerTop");
    reveal_strlit("LayerOverlay");
    reveal_strlit("LayerBackground");
    reveal_strlit("Status");
    reveal_strlit("Ramp");
    reveal_strlit("ColorRamp");
}

/// Reading a kind's own `--type` spelling gives that kind back: `from_arg(k.arg())`
/// is `Some(k)` for every kind, so no two kinds share a spelling.
pub proof fn lemma_from_arg_of_arg(k: ChildKind)
    ensures
        kind_named(arg_text(k)) == Some(k),
{
    lemma_arg_text_shape();
}

/// No two kinds share an app_id, so a compositor rule can target each kind alone.
pub proof fn lemma_app_id_distinct(k: ChildKind, j: ChildKind)
    ensures
        app_id_text(k) == app_id_text(j) ==> k == j,
{
    lemma_arg_text_shape();
    reveal_strlit("cce-gallery-child-");
    reveal_strlit("cce-status-right-gallery");
    if app_id_text(k) == app_id_text(j) && k != j {
        let p = "cce-gallery-child-"@;
        if k == ChildKind::Status || j == ChildKind::Status {
            assert(app_id_text(k)[4] != app_id_text(j)[4]);
        } else {
            assert(app_id_text(k).len() == p.len() + arg_text(k).len());
            assert(app_id_text(j).len() == p.len() + arg_text(j).len());
            assert(app_id_text(k)[18] == ascii_lower(arg_text(k))[0]);
            assert(app_id_text(j)[18] == ascii_lower(arg_text(j))[0]);
        }
    }
}


/// The layer-shell settings for every window height `h`: a Top-layer surface is
/// anchored to the top, left and right edges with an exclusive zone of exactly its
/// height (so a taller bar reserves more screen), an Overlay surface is unanchored with
/// no zone, a Background surface covers every edge with zone -1, and no other kind is a
/// layer surface.
pub proof fn lemma_layer_settings(k: ChildKind, h: i32, h2: i32)
    ensures
        k == ChildKind::LayerTop ==> layer_of(k, h) == Some(
            (LayerLevel::Top, Anchor { top: true, bottom: false, left: true, right: true }, h),
        ),
        k == ChildKind::LayerTop ==> ({
            let (_, _, z1) = layer_of(k, h)->0;
            let (_, _, z2) = layer_of(k, h2)->0;
            z1 - z2 == h - h2
        }),
        k == ChildKind::LayerOverlay ==> layer_of(k, h) == Some(
            (LayerLevel::Overlay, Anchor { top: false, bottom: false, left: false, right: false }, 0i32),
        ),
        k == ChildKind::LayerBackground ==> layer_of(k, h) == Some(
            (LayerLevel::Background, Anchor { top: true, bottom: true, left: true, right: true }, -1i32),
        ),
        (layer_of(k, h) is Some) == (k == ChildKind::LayerTop || k == ChildKind::LayerOverlay || k
            == ChildKind::LayerBackground),
{
}

/// Each kind's title is built from its `--type` name: `<type> Window` for the three
/// plain toplevels, `Layer Shell (<layer>) Surface` for the layer kinds, `<type>
/// Segment` for Status, `<type> Editor` for Ramp and `Color Ramp Editor`; so no two kinds
/// share a title.
pub proof fn lemma_titles(k: ChildKind, j: ChildKind)
    ensures
        (k == ChildKind::Floating || k == ChildKind::Fullscreen || k == ChildKind::Utility)
            ==> title_text(k) == arg_text(k) + " Window"@,
        (k == ChildKind::LayerTop || k == ChildKind::LayerOverlay || k == ChildKind::LayerBackground)
            ==> title_text(k) == "Layer Shell ("@ + arg_text(k).skip(5) + ") Surface"@,
        k == ChildKind::Status ==> title_text(k) == arg_text(k) + " Segment"@,
        k == ChildKind::Ramp ==> title_text(k) == arg_text(k) + " Editor"@,
        k == ChildKind::ColorRamp ==> title_text(k) == "Color Ramp Editor"@,
        title_text(k) == title_text(j) ==> k == j,
{
    reveal_strlit("Floating");
    reveal_strlit("Fullscreen");
    reveal_strlit("Utility");
    reveal_strlit("LayerTop");
    reveal_strlit("LayerOverlay");
    reveal_strlit("LayerBackground");
    reveal_strlit("Status");
    reveal_strlit("Ramp");
    reveal_strlit("ColorRamp");
    reveal_strlit(" Window");
    reveal_strlit("Layer Shell (");
    reveal_strlit(") Surface");
    reveal_strlit(" Segment");
    reveal_strlit(" Editor");
    reveal_strlit("Floating Window");
    reveal_strlit("Fullscreen Window");
    reveal_strlit("Utility Window");
    reveal_strlit("Layer Shell (Top) Surface");
    reveal_strlit("Layer Shell (Overlay) Surface");
    reveal_strlit("Layer Shell (Background) Surface");
    reveal_strlit("Status Segment");
    reveal_strlit("Ramp Editor");
    reveal_strlit("Color Ramp Editor");
    match k {
        ChildKind::Floating => assert(title_text(k) =~= arg_text(k) + " Window"@),
        ChildKind::Fullscreen => assert(title_text(k) =~= arg_text(k) + " Window"@),
        ChildKind::Utility => assert(title_text(k) =~= arg_text(k) + " Window"@),
        ChildKind::LayerTop => assert(title_text(k) =~= "Layer Shell ("@ + arg_text(k).skip(5)
            + ") Surface"@),
        ChildKind::LayerOverlay => assert(title_text(k) =~= "Layer Shell ("@ + arg_text(k).skip(5)
            + ") Surface"@),
        ChildKind::LayerBackground => assert(title_text(k) =~= "Layer Shell ("@ + arg_text(
            k,
        ).skip(5) + ") Surface"@),
        ChildKind::Status => assert(title_text(k) =~= arg_text(k) + " Segment"@),
        ChildKind::Ramp => assert(title_text(k) =~= arg_text(k) + " Editor"@),
        ChildKind::ColorRamp => {},
    }
    if title_text(k) == title_text(j) && k != j {
        let a = title_text(k);
        let b = title_text(j);
        assert(a.len() == b.len());
        assert(a[0] == b[0]);
        assert(a[13] == b[13]);
    }
}


/// The editors show no description line; every other kind shows one of its own, so no
/// two test windows read alike.
pub proof fn lemma_child_texts(k: ChildKind, j: ChildKind)
    ensures
        is_editor_kind(k) <==> child_text_of(k).len() == 0,
        child_text_of(k) == child_text_of(j) && !is_editor_kind(k) ==> k == j,
{
    reveal_strlit("A plain xdg_toplevel, mapped Floating by cce.");
    reveal_strlit("An xdg_toplevel that asked for fullscreen at map.");
    reveal_strlit("A toplevel declared UTILITY over the cce protocol.");
    reveal_strlit("A Top-layer wlr-layer-shell surface with an exclusive zone.");
    reveal_strlit("An Overlay-layer wlr-layer-shell surface, unanchored.");
    reveal_strlit("A Background-layer wlr-layer-shell surface.");
    reveal_strlit("A cce-status-* toplevel, docked into the status bar.");
    reveal_strlit("");
    if child_text_of(k) == child_text_of(j) && !is_editor_kind(k) && k != j {
        let a = child_text_of(k);
        let b = child_text_of(j);
        assert(a.len() == b.len());
        assert(a[1] == b[1]);
        assert(a[2] == b[2]);
        assert(a[3] == b[3]);
    }
}

} // verus!
