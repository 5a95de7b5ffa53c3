use vstd::prelude::*;

use crate::error::{Dimension, NodeKind, SchemaError};

verus! {

/// The largest width or height, exclusive, that a custom size may ask for.
pub const MAX_DIMENSION: usize = 8000;

/// What the compiler knows of the place the image is shown in.
#[derive(Clone, Copy, PartialEq, Eq, Structural, Debug)]
pub struct CreatorContext {
    pub screen_width: usize,
    pub screen_height: usize,
}

/// The image is as large as the visible render window.
#[derive(Clone, Copy, PartialEq, Eq, Structural, Debug)]
pub struct ScreenWidthHeight {}

/// The image is half the visible render window in each dimension.
#[derive(Clone, Copy, PartialEq, Eq, Structural, Debug)]
pub struct HalfScreenWidthHeight {}

/// The image is a quarter of the visible render window in each dimension.
#[derive(Clone, Copy, PartialEq, Eq, Structural, Debug)]
pub struct QuarterScreenWidthHeight {}

/// A fixed image size in pixels.
#[derive(Clone, Copy, PartialEq, Eq, Structural, Debug)]
pub struct CustomWidthHeight {
    pub width: usize,
    pub height: usize,
}

/// How the size of the rendered image is chosen: at most one alternative may
/// be given. With none, the image is as large as the render window.
#[derive(Clone, Copy, PartialEq, Eq, Structural, Debug)]
pub struct WidthHeight {
    pub screen: Option<ScreenWidthHeight>,
    pub half_screen: Option<HalfScreenWidthHeight>,
    pub quarter_screen: Option<QuarterScreenWidthHeight>,
    pub custom: Option<CustomWidthHeight>,
}

pub open spec fn in_dimension_range(v: usize) -> bool {
    1 <= v < MAX_DIMENSION
}

/// One for a given alternative, zero for an absent one.
pub open spec fn present<T>(o: Option<T>) -> nat {
    if o is Some {
        1
    } else {
        0
    }
}

impl ScreenWidthHeight {
    pub fn create(&self, ctx: &CreatorContext) -> (r: Result<(usize, usize), SchemaError>)
        ensures
            r == Ok::<(usize, usize), SchemaError>((ctx.screen_width, ctx.screen_height)),
    {
        Ok((ctx.screen_width, ctx.screen_height))
    }
}

impl HalfScreenWidthHeight {
    pub fn create(&self, ctx: &CreatorContext) -> (r: Result<(usize, usize), SchemaError>)
        ensures
            r == Ok::<(usize, usize), SchemaError>(
                ((ctx.screen_width / 2) as usize, (ctx.screen_height / 2) as usize),
            ),
    {
        Ok((ctx.screen_width / 2, ctx.screen_height / 2))
    }
}

impl QuarterScreenWidthHeight {
    pub fn create(&self, ctx: &CreatorContext) -> (r: Result<(usize, usize), SchemaError>)
        ensures
            r == Ok::<(usize, usize), SchemaError>(
                ((ctx.screen_width / 4) as usize, (ctx.screen_height / 4) as usize),
            ),
    {
        Ok((ctx.screen_width / 4, ctx.screen_height / 4))
    }
}

impl CustomWidthHeight {
    /// The size as given, if both dimensions lie in `1..8000`; the width is
    /// checked first.
    pub open spec fn spec_create(self) -> Result<(usize, usize), SchemaError> {
        if !in_dimension_range(self.width) {
            Err(SchemaError::OutOfRange(Dimension::Width))
        } else if !in_dimension_range(self.height) {
            Err(SchemaError::OutOfRange(Dimension::Height))
        } else {
            Ok((self.width, self.height))
        }
    }

    pub fn create(&self, ctx: &CreatorContext) -> (r: Result<(usize, usize), SchemaError>)
        ensures
            r == self.spec_create(),
    {
        if self.width < 1 || self.width >= MAX_DIMENSION {
            return Err(SchemaError::OutOfRange(Dimension::Width));
        }
        if self.height < 1 || self.height >= MAX_DIMENSION {
            return Err(SchemaError::OutOfRange(Dimension::Height));
        }
        Ok((self.width, self.height))
    }
}

impl WidthHeight {
    pub open spec fn alternatives(self) -> nat {
        present(self.screen) + present(self.half_screen) + present(self.quarter_screen)
            + present(self.custom)
    }

    pub open spec fn spec_create(self, ctx: CreatorContext) -> Result<(usize, usize), SchemaError> {
        if self.alternatives() > 1 {
            Err(SchemaError::AmbiguousVariant(NodeKind::WidthHeight))
        } else if self.half_screen is Some {
            Ok(((ctx.screen_width / 2) as usize, (ctx.screen_height / 2) as usize))
        } else if self.quarter_screen is Some {
            Ok(((ctx.screen_width / 4) as usize, (ctx.screen_height / 4) as usize))
        } else if self.custom is Some {
            self.custom.unwrap().spec_create()
        } else {
            Ok((ctx.screen_width, ctx.screen_height))
        }
    }

    /// The size as the screen alternative gives it.
    pub fn default() -> (r: WidthHeight)
        ensures
            r == (WidthHeight {
                screen: Some(ScreenWidthHeight {  }),
                half_screen: None,
                quarter_screen: None,
                custom: None,
            }),
    {
        WidthHeight {
            screen: Some(ScreenWidthHeight {  }),
            half_screen: None,
            quarter_screen: None,
            custom: None,
        }
    }

    /// Resolves the size of the image: the one given alternative applied to
    /// the render window, the whole window when none is given, an error when
    /// more than one is.
    pub fn create(&self, ctx: &CreatorContext) -> (r: Result<(usize, usize), SchemaError>)
        ensures
            r == self.spec_create(*ctx),
    {
        match self {
            WidthHeight { screen: _, half_screen: None, quarter_screen: None, custom: None } => {
                ScreenWidthHeight {  }.create(ctx)
            },
            WidthHeight { screen: None, half_screen: Some(s), quarter_screen: None, custom: None } => {
                s.create(ctx)
            },
            WidthHeight { screen: None, half_screen: None, quarter_screen: Some(s), custom: None } => {
                s.create(ctx)
            },
            WidthHeight { screen: None, half_screen: None, quarter_screen: None, custom: Some(s) } => {
                s.create(ctx)
            },
            _ => Err(SchemaError::AmbiguousVariant(NodeKind::WidthHeight)),
        }
    }
}

} // verus!
