//! The capture of each texture from the shared stage, as a state machine. The
//! caller performs each action on the stage and the renderer and answers with
//! the event that came of it; the machine decides what comes next.
use vstd::prelude::*;
use crate::atlas::{atlas_offset, crop_rect, fits, half_rounded, CropRect};
use crate::matcher::ExportedTexture;

verus! {

/// Why the capture of one texture was given up. Each error concerns that
/// texture alone: the batch goes on with the next one.
#[derive(Clone, Copy, Debug, PartialEq, Eq, Structural)]
pub enum CaptureError {
    /// No link of the table names the texture's class, so it has no symbol id.
    Unresolved,
    /// The engine could not instantiate the texture's symbol.
    SymbolMissing,
    /// The renderer failed or gave no frame.
    RenderFailed,
    /// The asset's rectangle does not lie within the render surface.
    OutsideAtlas,
    /// An event came that the current step does not expect.
    UnexpectedEvent,
}

/// Why a capture could not be planned.
#[derive(Clone, Copy, Debug, PartialEq, Eq, Structural)]
pub enum PlanError {
    /// The document's stage is larger than the render surface.
    StageLargerThanAtlas,
}

/// What the caller does next.
#[derive(Clone, Copy, Debug, PartialEq, Eq, Structural)]
pub enum CaptureAction {
    /// Remove every child of the stage and set its background.
    ResetStage,
    /// Instantiate the symbol at index 0 of the stage and construct a frame,
    /// then measure the new object.
    Instantiate { symbol: u16 },
    /// Move the object by `(x, y)` twips, which brings the top-left corner of
    /// its bounds to the stage origin, and construct a frame again.
    Reanchor { x: i64, y: i64 },
    /// Render the whole surface and capture it.
    Render,
    /// Crop the capture to `crop` and store it as the image of texture `index`.
    Save { index: usize, crop: CropRect },
    /// Report that texture `index` could not be captured.
    Report { index: usize, error: CaptureError },
    /// Every texture has been handled.
    Finish,
}

/// What came of the last action.
#[derive(Clone, Copy, Debug, PartialEq, Eq, Structural)]
pub enum CaptureEvent {
    /// The action was carried out.
    Done,
    /// The instantiated object was measured: the top-left corner of its bounds
    /// in twips, and its size in pixels.
    Measured { x_min: i32, y_min: i32, width: u32, height: u32 },
    /// The surface was rendered and captured.
    Captured,
    /// Rendering or capturing failed.
    RenderFailed,
    /// The symbol could not be instantiated.
    SymbolMissing,
}

/// Where the capture of the batch stands.
#[derive(Clone, Copy, Debug, PartialEq, Eq, Structural)]
pub enum Phase {
    /// Texture `index` is next, once the last action is done.
    Next,
    /// The stage is being reset for texture `index`.
    Resetting,
    /// Texture `index` is being instantiated and measured.
    Instantiating,
    /// Texture `index`, of the given size, is being re-anchored.
    Anchoring { width: u32, height: u32 },
    /// The surface is being rendered with texture `index`, of the given size.
    Rendering { width: u32, height: u32 },
    /// Every texture has been handled.
    Finished,
}

/// The state of the machine: the texture at hand and the phase of its capture.
#[derive(Clone, Copy, Debug, PartialEq, Eq, Structural)]
pub struct CaptureState {
    pub index: usize,
    pub phase: Phase,
}

/// What the capture of a batch works from: the symbol id of each texture, in
/// order, the size of the render surface, and where the document's stage is
/// centred on it.
pub struct CapturePlan {
    pub symbols: Vec<Option<u16>>,
    pub atlas_width: u32,
    pub atlas_height: u32,
    pub origin_x: u32,
    pub origin_y: u32,
}

impl CapturePlan {
    /// Plans the capture of `textures` on a surface of `atlas_width` by
    /// `atlas_height` pixels for a document whose stage is `movie_width` by
    /// `movie_height` pixels. The stage is centred on the surface; a stage
    /// larger than the surface is refused.
    pub fn new(textures: &Vec<ExportedTexture>, atlas_width: u32, atlas_height: u32, movie_width: u32, movie_height: u32) -> (r: Result<CapturePlan, PlanError>)
        ensures
            (movie_width <= atlas_width && movie_height <= atlas_height) == r is Ok,
            r is Err ==> r == Err::<CapturePlan, PlanError>(PlanError::StageLargerThanAtlas),
            r is Ok ==> ({
                let p = r->Ok_0;
                &&& p.symbols@.len() == textures@.len()
                &&& forall|i: int| 0 <= i < textures@.len() ==> #[trigger] p.symbols@[i] == textures@[i].id
                &&& p.atlas_width == atlas_width && p.atlas_height == atlas_height
                &&& p.origin_x == half_rounded(atlas_width - movie_width)
                &&& p.origin_y == half_rounded(atlas_height - movie_height)
            }),
    {
        if movie_width > atlas_width || movie_height > atlas_height {
            return Err(PlanError::StageLargerThanAtlas);
        }
        let mut symbols: Vec<Option<u16>> = Vec::new();
        let mut i: usize = 0;
        while i < textures.len()
            invariant
                i <= textures.len(),
                symbols@.len() == i,
                forall|j: int| 0 <= j < i ==> #[trigger] symbols@[j] == textures@[j].id,
            decreases textures.len() - i,
        {
            symbols.push(textures[i].id);
            i = i + 1;
        }
        Ok(CapturePlan {
            symbols,
            atlas_width,
            atlas_height,
            origin_x: atlas_offset(atlas_width, movie_width),
            origin_y: atlas_offset(atlas_height, movie_height),
        })
    }

    /// The state in which a batch starts.
    pub fn start(&self) -> (r: CaptureState)
        ensures
            r == (CaptureState { index: 0, phase: Phase::Next }),
            self.reachable(r),
    {
        CaptureState { index: 0, phase: Phase::Next }
    }

    /// Whether `s` can arise in a batch: a texture in the middle of its capture
    /// is one of the plan's, and the next texture is at most one past the last.
    pub open spec fn reachable(&self, s: CaptureState) -> bool {
        if s.phase is Next || s.phase is Finished {
            s.index <= self.symbols@.len()
        } else {
            s.index < self.symbols@.len()
        }
    }

    /// Taking up texture `index`: past the end the batch is finished; a
    /// texture with no symbol id is reported and passed over; any other
    /// starts with a reset of the stage.
    pub open spec fn begin(&self, index: int) -> (CaptureState, CaptureAction) {
        if index >= self.symbols@.len() {
            (CaptureState { index: self.symbols@.len() as usize, phase: Phase::Finished }, CaptureAction::Finish)
        } else if self.symbols@[index] is None {
            (
                CaptureState { index: (index + 1) as usize, phase: Phase::Next },
                CaptureAction::Report { index: index as usize, error: CaptureError::Unresolved },
            )
        } else {
            (CaptureState { index: index as usize, phase: Phase::Resetting }, CaptureAction::ResetStage)
        }
    }

    /// Giving up texture `index` with `error`.
    pub open spec fn give_up(index: int, error: CaptureError) -> (CaptureState, CaptureAction) {
        (
            CaptureState { index: (index + 1) as usize, phase: Phase::Next },
            CaptureAction::Report { index: index as usize, error },
        )
    }

    /// The next state and action, given the state and what came of the last
    /// action.
    pub open spec fn transition(&self, s: CaptureState, e: CaptureEvent) -> (CaptureState, CaptureAction) {
        let i = s.index as int;
        match s.phase {
            Phase::Next => self.begin(i),
            Phase::Finished => (s, CaptureAction::Finish),
            Phase::Resetting => match e {
                CaptureEvent::Done => if i < self.symbols@.len() && self.symbols@[i] is Some {
                    (
                        CaptureState { index: s.index, phase: Phase::Instantiating },
                        CaptureAction::Instantiate { symbol: self.symbols@[i]->Some_0 },
                    )
                } else {
                    Self::give_up(i, CaptureError::Unresolved)
                },
                _ => Self::give_up(i, CaptureError::UnexpectedEvent),
            },
            Phase::Instantiating => match e {
                CaptureEvent::Measured { x_min, y_min, width, height } => (
                    CaptureState { index: s.index, phase: Phase::Anchoring { width, height } },
                    CaptureAction::Reanchor { x: (-x_min) as i64, y: (-y_min) as i64 },
                ),
                CaptureEvent::SymbolMissing => Self::give_up(i, CaptureError::SymbolMissing),
                _ => Self::give_up(i, CaptureError::UnexpectedEvent),
            },
            Phase::Anchoring { width, height } => match e {
                CaptureEvent::Done => (
                    CaptureState { index: s.index, phase: Phase::Rendering { width, height } },
                    CaptureAction::Render,
                ),
                _ => Self::give_up(i, CaptureError::UnexpectedEvent),
            },
            Phase::Rendering { width, height } => match e {
                CaptureEvent::Captured => {
                    let c = CropRect { x: self.origin_x, y: self.origin_y, width, height };
                    if fits(c, self.atlas_width, self.atlas_height) {
                        (
                            CaptureState { index: (i + 1) as usize, phase: Phase::Next },
                            CaptureAction::Save { index: s.index, crop: c },
                        )
                    } else {
                        Self::give_up(i, CaptureError::OutsideAtlas)
                    }
                },
                CaptureEvent::RenderFailed => Self::give_up(i, CaptureError::RenderFailed),
                _ => Self::give_up(i, CaptureError::UnexpectedEvent),
            },
        }
    }

    /// A texture with no symbol id is reported as unresolved when its turn
    /// comes, and the batch moves past it; no action of the machine ever
    /// instantiates a symbol other than the id of the texture at hand.
    pub proof fn lemma_unresolved_reported(&self, s: CaptureState, e: CaptureEvent)
        requires
            self.reachable(s),
            s.index < self.symbols@.len(),
            self.symbols@[s.index as int] is None,
        ensures
            s.phase is Next ==> self.transition(s, e) == (
                CaptureState { index: (s.index + 1) as usize, phase: Phase::Next },
                CaptureAction::Report { index: s.index, error: CaptureError::Unresolved },
            ),
            !(self.transition(s, e).1 is Instantiate),
    {
    }

    /// Every symbol that the machine instantiates is the id that the plan
    /// holds for the texture at hand.
    pub proof fn lemma_instantiates_linked_symbol(&self, s: CaptureState, e: CaptureEvent)
        requires
            self.reachable(s),
        ensures
            self.transition(s, e).1 matches CaptureAction::Instantiate { symbol }
                ==> self.symbols@[s.index as int] == Some(symbol),
    {
    }

    /// Takes up texture `index`.
    fn begin_at(&self, index: usize) -> (r: (CaptureState, CaptureAction))
        ensures
            r == self.begin(index as int),
    {
        if index >= self.symbols.len() {
            (CaptureState { index: self.symbols.len(), phase: Phase::Finished }, CaptureAction::Finish)
        } else {
            match self.symbols[index] {
                None => (
                    CaptureState { index: index + 1, phase: Phase::Next },
                    CaptureAction::Report { index, error: CaptureError::Unresolved },
                ),
                Some(_) => (CaptureState { index, phase: Phase::Resetting }, CaptureAction::ResetStage),
            }
        }
    }

    /// Gives up texture `index`.
    fn give_up_at(index: usize, error: CaptureError) -> (r: (CaptureState, CaptureAction))
        requires
            index < usize::MAX,
        ensures
            r == Self::give_up(index as int, error),
    {
        (CaptureState { index: index + 1, phase: Phase::Next }, CaptureAction::Report { index, error })
    }

    /// Decides the next step of the capture. Texture by texture, in order: the
    /// stage is reset; the texture's symbol is instantiated and measured; it
    /// is moved so that its bounds start at the stage origin; the surface is
    /// rendered; and the capture is cropped to the rectangle of the texture's
    /// size at the stage's centring offset. A texture with no symbol id, a
    /// symbol the engine cannot instantiate, a failed render or a rectangle outside the surface is reported, and the
    /// batch goes on with the next texture.
    pub fn step(&self, s: CaptureState, e: CaptureEvent) -> (r: (CaptureState, CaptureAction))
        requires
            self.reachable(s),
            self.symbols@.len() < usize::MAX,
        ensures
            r == self.transition(s, e),
            self.reachable(r.0),
    {
        match s.phase {
            Phase::Next => {
                let r = self.begin_at(s.index);
                r
            },
            Phase::Finished => (s, CaptureAction::Finish),
            Phase::Resetting => match e {
                CaptureEvent::Done => {
                    if s.index < self.symbols.len() {
                        match self.symbols[s.index] {
                            Some(symbol) => (
                                CaptureState { index: s.index, phase: Phase::Instantiating },
                                CaptureAction::Instantiate { symbol },
                            ),
                            None => Self::give_up_at(s.index, CaptureError::Unresolved),
                        }
                    } else {
                        Self::give_up_at(s.index, CaptureError::Unresolved)
                    }
                },
                _ => Self::give_up_at(s.index, CaptureError::UnexpectedEvent),
            },
            Phase::Instantiating => match e {
                CaptureEvent::Measured { x_min, y_min, width, height } => (
                    CaptureState { index: s.index, phase: Phase::Anchoring { width, height } },
                    CaptureAction::Reanchor { x: -(x_min as i64), y: -(y_min as i64) },
                ),
                CaptureEvent::SymbolMissing => Self::give_up_at(s.index, CaptureError::SymbolMissing),
                _ => Self::give_up_at(s.index, CaptureError::UnexpectedEvent),
            },
            Phase::Anchoring { width, height } => match e {
                CaptureEvent::Done => (
                    CaptureState { index: s.index, phase: Phase::Rendering { width, height } },
                    CaptureAction::Render,
                ),
                _ => Self::give_up_at(s.index, CaptureError::UnexpectedEvent),
            },
            Phase::Rendering { width, height } => match e {
                CaptureEvent::Captured => match crop_rect(self.origin_x, self.origin_y, width, height, self.atlas_width, self.atlas_height) {
                    Some(crop) => (
                        CaptureState { index: s.index + 1, phase: Phase::Next },
                        CaptureAction::Save { index: s.index, crop },
                    ),
                    None => Self::give_up_at(s.index, CaptureError::OutsideAtlas),
                },
                CaptureEvent::RenderFailed => Self::give_up_at(s.index, CaptureError::RenderFailed),
                _ => Self::give_up_at(s.index, CaptureError::UnexpectedEvent),
            },
        }
    }
}

} // verus!
