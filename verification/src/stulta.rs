//!Small traits that the rest of the library and its users need for numbers of any kind: halving
//!and absolute values.
use vstd::prelude::*;

verus! {

///A trait for getting half of a number or other quantity object.
pub trait Half: Sized {
    ///Whether `half` returns [`half_spec`](Half::half_spec). Implementations outside verified
    ///code keep the default `false`, and then nothing is known of what `half` returns.
    open spec fn obeys_half_spec() -> bool {
        false
    }

    ///Half of the number, as `half` computes it when the type obeys it.
    open spec fn half_spec(self) -> Self {
        arbitrary()
    }

    ///Get half of the number.
    fn half(self) -> (r: Self)
        ensures
            Self::obeys_half_spec() ==> r == self.half_spec(),
    ;
}

///A trait for getting the absolute value of a number or other quantity object.
pub trait AbsoluteValue: Sized {
    ///Whether the absolute value of `self` can be represented in the type.
    open spec fn has_abs(self) -> bool {
        true
    }

    ///Get the absolute value.
    fn rrtk_abs(self) -> Self
        requires
            self.has_abs(),
    ;
}

impl Half for u8 {
    open spec fn obeys_half_spec() -> bool {
        true
    }

    ///Half of the number, rounded down.
    open spec fn half_spec(self) -> u8 {
        self / 2
    }

    fn half(self) -> (r: u8) {
        self / 2
    }
}

impl Half for u16 {
    open spec fn obeys_half_spec() -> bool {
        true
    }

    ///Half of the number, rounded down.
    open spec fn half_spec(self) -> u16 {
        self / 2
    }

    fn half(self) -> (r: u16) {
        self / 2
    }
}

impl Half for u32 {
    open spec fn obeys_half_spec() -> bool {
        true
    }

    ///Half of the number, rounded down.
    open spec fn half_spec(self) -> u32 {
        self / 2
    }

    fn half(self) -> (r: u32) {
        self / 2
    }
}

impl Half for u64 {
    open spec fn obeys_half_spec() -> bool {
        true
    }

    ///Half of the number, rounded down.
    open spec fn half_spec(self) -> u64 {
        self / 2
    }

    fn half(self) -> (r: u64) {
        self / 2
    }
}

impl Half for u128 {
    open spec fn obeys_half_spec() -> bool {
        true
    }

    ///Half of the number, rounded down.
    open spec fn half_spec(self) -> u128 {
        self / 2
    }

    fn half(self) -> (r: u128) {
        self / 2
    }
}

impl Half for usize {
    open spec fn obeys_half_spec() -> bool {
        true
    }

    ///Half of the number, rounded down.
    open spec fn half_spec(self) -> usize {
        self / 2
    }

    fn half(self) -> (r: usize) {
        self / 2
    }
}

impl Half for i8 {
    open spec fn obeys_half_spec() -> bool {
        true
    }

    ///Half of the number, rounded toward zero.
    open spec fn half_spec(self) -> i8 {
        if self >= 0 {
            (self / 2) as i8
        } else {
            (-((-self) / 2)) as i8
        }
    }

    fn half(self) -> (r: i8) {
        self / 2
    }
}

impl Half for i16 {
    open spec fn obeys_half_spec() -> bool {
        true
    }

    ///Half of the number, rounded toward zero.
    open spec fn half_spec(self) -> i16 {
        if self >= 0 {
            (self / 2) as i16
        } else {
            (-((-self) / 2)) as i16
        }
    }

    fn half(self) -> (r: i16) {
        self / 2
    }
}

impl Half for i32 {
    open spec fn obeys_half_spec() -> bool {
        true
    }

    ///Half of the number, rounded toward zero.
    open spec fn half_spec(self) -> i32 {
        if self >= 0 {
            (self / 2) as i32
        } else {
            (-((-self) / 2)) as i32
        }
    }

    fn half(self) -> (r: i32) {
        self / 2
    }
}

impl Half for i64 {
    open spec fn obeys_half_spec() -> bool {
        true
    }

    ///Half of the number, rounded toward zero.
    open spec fn half_spec(self) -> i64 {
        if self >= 0 {
            (self / 2) as i64
        } else {
            (-((-self) / 2)) as i64
        }
    }

    fn half(self) -> (r: i64) {
        self / 2
    }
}

impl Half for i128 {
    open spec fn obeys_half_spec() -> bool {
        true
    }

    ///Half of the number, rounded toward zero.
    open spec fn half_spec(self) -> i128 {
        if self >= 0 {
            (self / 2) as i128
        } else {
            (-((-self) / 2)) as i128
        }
    }

    fn half(self) -> (r: i128) {
        self / 2
    }
}

impl Half for isize {
    open spec fn obeys_half_spec() -> bool {
        true
    }

    ///Half of the number, rounded toward zero.
    open spec fn half_spec(self) -> isize {
        if self >= 0 {
            (self / 2) as isize
        } else {
            (-((-self) / 2)) as isize
        }
    }

    fn half(self) -> (r: isize) {
        self / 2
    }
}

impl AbsoluteValue for i8 {
    open spec fn has_abs(self) -> bool {
        self > i8::MIN
    }

    fn rrtk_abs(self) -> (r: i8)
        ensures
            r == if self < 0 {
                -self
            } else {
                self as int
            },
    {
        if self < 0 {
            -self
        } else {
            self
        }
    }
}

impl AbsoluteValue for i16 {
    open spec fn has_abs(self) -> bool {
        self > i16::MIN
    }

    fn rrtk_abs(self) -> (r: i16)
        ensures
            r == if self < 0 {
                -self
            } else {
                self as int
            },
    {
        if self < 0 {
            -self
        } else {
            self
        }
    }
}

impl AbsoluteValue for i32 {
    open spec fn has_abs(self) -> bool {
        self > i32::MIN
    }

    fn rrtk_abs(self) -> (r: i32)
        ensures
            r == if self < 0 {
                -self
            } else {
                self as int
            },
    {
        if self < 0 {
            -self
        } else {
            self
        }
    }
}

impl AbsoluteValue for i64 {
    open spec fn has_abs(self) -> bool {
        self > i64::MIN
    }

    fn rrtk_abs(self) -> (r: i64)
        ensures
            r == if self < 0 {
                -self
            } else {
                self as int
            },
    {
        if self < 0 {
            -self
        } else {
            self
        }
    }
}

impl AbsoluteValue for i128 {
    open spec fn has_abs(self) -> bool {
        self > i128::MIN
    }

    fn rrtk_abs(self) -> (r: i128)
        ensures
            r == if self < 0 {
                -self
            } else {
                self as int
            },
    {
        if self < 0 {
            -self
        } else {
            self
        }
    }
}

impl AbsoluteValue for isize {
    open spec fn has_abs(self) -> bool {
        self > isize::MIN
    }

    fn rrtk_abs(self) -> (r: isize)
        ensures
            r == if self < 0 {
                -self
            } else {
                self as int
            },
    {
        if self < 0 {
            -self
        } else {
            self
        }
    }
}

} // verus!
