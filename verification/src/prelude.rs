//!The items that nearly every user of the library needs, for importing in one line.
pub use crate::datum::{Datum, NotDatum, OptionDatumExt, Output, OutputExt};
pub use crate::error::{NothingOrError, NothingOrErrorExt};
pub use crate::interfaces::{Chronology, Getter, Settable, TimeGetter, TimeOutput, Updatable};
