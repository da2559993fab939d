use vstd::prelude::*;

use crate::engine::Rect;

verus! {

/// Number of sprites the game draws.
pub const SPRITE_COUNT: usize = 15;

/// The named regions of the sprite atlas that the game draws.
#[derive(Clone, Copy, Debug, PartialEq, Eq, Structural)]
pub enum Sprite {
    Background,
    GroundDirt,
    GroundGrass,
    PlaneRed1,
    PlaneRed2,
    PlaneRed3,
    Rock,
    RockDown,
    TapLeft,
    TapRight,
    TextGetReady,
    Number3,
    Number2,
    Number1,
    TextGameOver,
}

/// Position of a sprite in the atlas table.
pub open spec fn sprite_index(s: Sprite) -> int {
    match s {
        Sprite::Background => 0,
        Sprite::GroundDirt => 1,
        Sprite::GroundGrass => 2,
        Sprite::PlaneRed1 => 3,
        Sprite::PlaneRed2 => 4,
        Sprite::PlaneRed3 => 5,
        Sprite::Rock => 6,
        Sprite::RockDown => 7,
        Sprite::TapLeft => 8,
        Sprite::TapRight => 9,
        Sprite::TextGetReady => 10,
        Sprite::Number3 => 11,
        Sprite::Number2 => 12,
        Sprite::Number1 => 13,
        Sprite::TextGameOver => 14,
    }
}

/// The sprite at a table position.
pub open spec fn sprite_at(i: int) -> Sprite {
    if i <= 0 {
        Sprite::Background
    } else if i == 1 {
        Sprite::GroundDirt
    } else if i == 2 {
        Sprite::GroundGrass
    } else if i == 3 {
        Sprite::PlaneRed1
    } else if i == 4 {
        Sprite::PlaneRed2
    } else if i == 5 {
        Sprite::PlaneRed3
    } else if i == 6 {
        Sprite::Rock
    } else if i == 7 {
        Sprite::RockDown
    } else if i == 8 {
        Sprite::TapLeft
    } else if i == 9 {
        Sprite::TapRight
    } else if i == 10 {
        Sprite::TextGetReady
    } else if i == 11 {
        Sprite::Number3
    } else if i == 12 {
        Sprite::Number2
    } else if i == 13 {
        Sprite::Number1
    } else {
        Sprite::TextGameOver
    }
}

/// The name of a sprite's region in the atlas description.
pub open spec fn sprite_file_name(s: Sprite) -> Seq<char> {
    match s {
        Sprite::Background => "background.png"@,
        Sprite::GroundDirt => "groundDirt.png"@,
        Sprite::GroundGrass => "groundGrass.png"@,
        Sprite::PlaneRed1 => "planeRed1.png"@,
        Sprite::PlaneRed2 => "planeRed2.png"@,
        Sprite::PlaneRed3 => "planeRed3.png"@,
        Sprite::Rock => "rock.png"@,
        Sprite::RockDown => "rockDown.png"@,
        Sprite::TapLeft => "tapLeft.png"@,
        Sprite::TapRight => "tapRight.png"@,
        Sprite::TextGetReady => "textGetReady.png"@,
        Sprite::Number3 => "number3.png"@,
        Sprite::Number2 => "number2.png"@,
        Sprite::Number1 => "number1.png"@,
        Sprite::TextGameOver => "textGameOver.png"@,
    }
}

/// The plane sprite of an animation frame (0, 1 or 2).
pub open spec fn plane_sprite(frame: int) -> Sprite {
    if frame <= 0 {
        Sprite::PlaneRed1
    } else if frame == 1 {
        Sprite::PlaneRed2
    } else {
        Sprite::PlaneRed3
    }
}

impl Sprite {
    /// Position of this sprite in the atlas table.
    pub fn index(&self) -> (r: usize)
        ensures
            r == sprite_index(*self),
            r < SPRITE_COUNT,
    {
        match self {
            Sprite::Background => 0,
            Sprite::GroundDirt => 1,
            Sprite::GroundGrass => 2,
            Sprite::PlaneRed1 => 3,
            Sprite::PlaneRed2 => 4,
            Sprite::PlaneRed3 => 5,
            Sprite::Rock => 6,
            Sprite::RockDown => 7,
            Sprite::TapLeft => 8,
            Sprite::TapRight => 9,
            Sprite::TextGetReady => 10,
            Sprite::Number3 => 11,
            Sprite::Number2 => 12,
            Sprite::Number1 => 13,
            Sprite::TextGameOver => 14,
        }
    }

    /// The name of this sprite's region in the atlas description.
    pub fn file_name(&self) -> (r: &'static str)
        ensures
            r@ == sprite_file_name(*self),
    {
        match self {
            Sprite::Background => "background.png",
            Sprite::GroundDirt => "groundDirt.png",
            Sprite::GroundGrass => "groundGrass.png",
            Sprite::PlaneRed1 => "planeRed1.png",
            Sprite::PlaneRed2 => "planeRed2.png",
            Sprite::PlaneRed3 => "planeRed3.png",
            Sprite::Rock => "rock.png",
            Sprite::RockDown => "rockDown.png",
            Sprite::TapLeft => "tapLeft.png",
            Sprite::TapRight => "tapRight.png",
            Sprite::TextGetReady => "textGetReady.png",
            Sprite::Number3 => "number3.png",
            Sprite::Number2 => "number2.png",
            Sprite::Number1 => "number1.png",
            Sprite::TextGameOver => "textGameOver.png",
        }
    }

    /// The plane sprite of an animation frame (0, 1 or 2).
    pub fn plane(frame: u64) -> (r: Sprite)
        ensures
            r == plane_sprite(frame as int),
    {
        if frame == 0 {
            Sprite::PlaneRed1
        } else if frame == 1 {
            Sprite::PlaneRed2
        } else {
            Sprite::PlaneRed3
        }
    }
}

/// Every sprite, in table order.
pub fn all_sprites() -> (r: Vec<Sprite>)
    ensures
        r@.len() == SPRITE_COUNT,
        forall|i: int| 0 <= i < SPRITE_COUNT ==> #[trigger] r@[i] == sprite_at(i),
        forall|i: int| 0 <= i < SPRITE_COUNT ==> sprite_index(#[trigger] r@[i]) == i,
{
    let r = vec![
        Sprite::Background,
        Sprite::GroundDirt,
        Sprite::GroundGrass,
        Sprite::PlaneRed1,
        Sprite::PlaneRed2,
        Sprite::PlaneRed3,
        Sprite::Rock,
        Sprite::RockDown,
        Sprite::TapLeft,
        Sprite::TapRight,
        Sprite::TextGetReady,
        Sprite::Number3,
        Sprite::Number2,
        Sprite::Number1,
        Sprite::TextGameOver,
    ];
    r
}

/// A region fit to draw from: its size is not negative.
pub open spec fn tile_ok(r: Rect) -> bool {
    0 <= r.width && 0 <= r.height
}

/// The atlas: the image's path and the region of every sprite.
pub struct Spritesheet {
    image: String,
    tiles: Vec<Rect>,
}

impl View for Spritesheet {
    type V = Seq<Rect>;

    closed spec fn view(&self) -> Seq<Rect> {
        self.tiles@
    }
}

impl Spritesheet {
    /// Whether the atlas has a fit region for every sprite.
    pub open spec fn wf(&self) -> bool {
        &&& self@.len() == SPRITE_COUNT
        &&& forall|i: int| 0 <= i < SPRITE_COUNT ==> tile_ok(#[trigger] self@[i])
    }

    /// Path of the atlas image.
    pub closed spec fn image_path(&self) -> String {
        self.image
    }

    /// The region of a sprite.
    pub open spec fn tile_spec(&self, s: Sprite) -> Rect {
        self@[sprite_index(s)]
    }

    /// An atlas from the regions of all sprites in table order; none when
    /// there are not exactly `SPRITE_COUNT` of them or one is not fit.
    pub fn new(image: String, tiles: Vec<Rect>) -> (r: Option<Spritesheet>)
        ensures
            r is Some <==> (tiles@.len() == SPRITE_COUNT && forall|i: int|
                0 <= i < tiles@.len() ==> tile_ok(#[trigger] tiles@[i])),
            r matches Some(sheet) ==> sheet@ == tiles@ && sheet.image_path() == image && sheet.wf(),
    {
        if tiles.len() != SPRITE_COUNT {
            return None;
        }
        let mut i: usize = 0;
        while i < tiles.len()
            invariant
                i <= tiles@.len(),
                forall|k: int| 0 <= k < i ==> tile_ok(#[trigger] tiles@[k]),
            decreases tiles@.len() - i,
        {
            let t = tiles[i];
            if t.width < 0 || t.height < 0 {
                return None;
            }
            i = i + 1;
        }
        Some(Spritesheet { image, tiles })
    }

    /// Path of the atlas image.
    pub fn image(&self) -> (r: &String)
        ensures
            *r == self.image_path(),
    {
        &self.image
    }

    /// The region of a sprite.
    pub fn tile(&self, s: Sprite) -> (r: Rect)
        requires
            self.wf(),
        ensures
            r == self.tile_spec(s),
            tile_ok(r),
    {
        self.tiles[s.index()]
    }
}

} // verus!
