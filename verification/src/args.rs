//! The snapshot that one call works on: its tickers, its piped texts and
//! its arguments, each under a name.
use crate::candle::{decimal_series, Candle, ToDecimal};
use crate::decimal::FixedDecimal;
use crate::decode::{coerce, coerces, FromValue};
use crate::error::{AccessError, ErrorKind};
use crate::name_map::NameMap;
use crate::ticker::TickersData;
use crate::value::JsonValue;
use vstd::prelude::*;
use vstd::std_specs::iter::IteratorSpec;

verus! {

/// The tickers, piped texts and call arguments of one call. Nothing in it
/// changes once it is made.
pub struct FunctionArgs<T> {
    tickers_data: NameMap<TickersData<T>>,
    piped_data: NameMap<String>,
    call_arguments: NameMap<JsonValue>,
}

/// `error` says that `name` was not found, in the way of `kind`.
pub open spec fn reports(error: AccessError, kind: ErrorKind, name: Seq<char>) -> bool {
    error.kind == kind && error.name@ == name
}

/// The kind alone of a failed access.
pub open spec fn kind_of<U>(outcome: Result<U, AccessError>) -> Result<U, ErrorKind> {
    match outcome {
        Ok(value) => Ok(value),
        Err(error) => Err(error.kind),
    }
}

/// `names` are the names under which `map` holds something, each once.
pub open spec fn lists<V>(names: Seq<&String>, map: Map<Seq<char>, V>) -> bool {
    &&& forall|name: Seq<char>|
        map.contains_key(name) <==> exists|i: int| 0 <= i < names.len() && names[i]@ == name
    &&& forall|i: int, j: int| 0 <= i < j < names.len() ==> names[i]@ != names[j]@
}

impl<T> FunctionArgs<T> {
    /// The ticker records by label.
    pub closed spec fn tickers(&self) -> Map<Seq<char>, TickersData<T>> {
        self.tickers_data@
    }

    /// The piped texts by source name.
    pub closed spec fn pipes(&self) -> Map<Seq<char>, String> {
        self.piped_data@
    }

    /// The call arguments by name.
    pub closed spec fn arguments(&self) -> Map<Seq<char>, JsonValue> {
        self.call_arguments@
    }

    /// The snapshot of these tickers, piped texts and call arguments.
    pub fn new(
        tickers_data: NameMap<TickersData<T>>,
        piped_data: NameMap<String>,
        call_arguments: NameMap<JsonValue>,
    ) -> (args: FunctionArgs<T>)
        ensures
            args.tickers() == tickers_data@,
            args.pipes() == piped_data@,
            args.arguments() == call_arguments@,
    {
        FunctionArgs { tickers_data, piped_data, call_arguments }
    }

    /// The labels under which there is a ticker, in no promised order.
    pub fn get_labels(&self) -> (labels: Vec<&String>)
        ensures
            lists(labels@, self.tickers()),
    {
        self.tickers_data.names()
    }

    /// The record under `label`.
    pub fn get_ticker(&self, label: &str) -> (found: Result<&TickersData<T>, AccessError>)
        ensures
            match found {
                Ok(ticker) => self.tickers().contains_key(label@) && *ticker == self.tickers()[label@],
                Err(error) => !self.tickers().contains_key(label@) && reports(
                    error,
                    ErrorKind::TickerNotFound,
                    label@,
                ),
            },
    {
        match self.tickers_data.get(label) {
            Some(ticker) => Ok(ticker),
            None => Err(AccessError::new(ErrorKind::TickerNotFound, label)),
        }
    }

    /// The candle series under `label`, as it was supplied.
    pub fn get_candles(&self, label: &str) -> (found: Result<&Vec<Candle<T>>, AccessError>)
        ensures
            match found {
                Ok(candles) => self.tickers().contains_key(label@) && *candles
                    == self.tickers()[label@].candles,
                Err(error) => !self.tickers().contains_key(label@) && reports(
                    error,
                    ErrorKind::TickerNotFound,
                    label@,
                ),
            },
    {
        match self.get_ticker(label) {
            Ok(ticker) => Ok(ticker.get_candles()),
            Err(error) => Err(error),
        }
    }

    /// The candle series under `label`, to walk from its first candle to its last.
    pub fn get_candles_iter(&self, label: &str) -> (found: Result<
        core::slice::Iter<'_, Candle<T>>,
        AccessError,
    >)
        ensures
            match found {
                Ok(iter) => self.tickers().contains_key(label@) && iter.remaining()
                    == self.tickers()[label@].candles@.as_ref(),
                Err(error) => !self.tickers().contains_key(label@) && reports(
                    error,
                    ErrorKind::TickerNotFound,
                    label@,
                ),
            },
    {
        match self.get_ticker(label) {
            Ok(ticker) => Ok(ticker.get_candles_iter()),
            Err(error) => Err(error),
        }
    }

    /// The names of the pipe sources, in no promised order.
    pub fn get_pipe_sources(&self) -> (sources: Vec<&String>)
        ensures
            lists(sources@, self.pipes()),
    {
        self.piped_data.names()
    }

    /// The text that the pipe source `source` supplied.
    pub fn get_data_from_pipe(&self, source: &str) -> (found: Result<&String, AccessError>)
        ensures
            match found {
                Ok(text) => self.pipes().contains_key(source@) && *text == self.pipes()[source@],
                Err(error) => !self.pipes().contains_key(source@) && reports(
                    error,
                    ErrorKind::PipeSourceNotFound,
                    source@,
                ),
            },
    {
        match self.piped_data.get(source) {
            Some(text) => Ok(text),
            None => Err(AccessError::new(ErrorKind::PipeSourceNotFound, source)),
        }
    }

    /// The call arguments, untyped.
    pub fn get_call_arguments(&self) -> (arguments: &NameMap<JsonValue>)
        ensures
            arguments@ == self.arguments(),
    {
        &self.call_arguments
    }

    /// The names of the call arguments, in no promised order.
    pub fn get_call_argument_names(&self) -> (names: Vec<&String>)
        ensures
            lists(names@, self.arguments()),
    {
        self.call_arguments.names()
    }

    /// The call argument `key` as it was supplied, with no coercion.
    pub fn get_raw_call_argument(&self, key: &str) -> (found: Result<&JsonValue, AccessError>)
        ensures
            match found {
                Ok(value) => self.arguments().contains_key(key@) && *value == self.arguments()[key@],
                Err(error) => !self.arguments().contains_key(key@) && reports(
                    error,
                    ErrorKind::ArgumentNotFound,
                    key@,
                ),
            },
    {
        match self.call_arguments.get(key) {
            Some(value) => Ok(value),
            None => Err(AccessError::new(ErrorKind::ArgumentNotFound, key)),
        }
    }

    /// The call argument `key` as a `U`.
    ///
    /// An absent name is not found. A value that is there is coerced: see
    /// [`coerces`]. Every error names `key`.
    pub fn get_call_argument<U: FromValue>(&self, key: &str) -> (found: Result<U, AccessError>)
        ensures
            found matches Err(error) ==> error.name@ == key@,
            !self.arguments().contains_key(key@) ==> kind_of(found) == Err::<U, ErrorKind>(
                ErrorKind::ArgumentNotFound,
            ),
            self.arguments().contains_key(key@) ==> coerces(
                self.arguments()[key@],
                kind_of(found),
            ),
    {
        match self.call_arguments.get(key) {
            Some(value) => match coerce::<U>(value) {
                Ok(decoded) => Ok(decoded),
                Err(kind) => Err(AccessError::new(kind, key)),
            },
            None => Err(AccessError::new(ErrorKind::ArgumentNotFound, key)),
        }
    }
}

impl<T: ToDecimal> FunctionArgs<T> {
    /// The candle series under `label` in exact decimals at that series'
    /// own precision, to walk from its first candle to its last.
    pub fn get_candles_decimal_iter(&self, label: &str) -> (found: Result<
        std::vec::IntoIter<Candle<FixedDecimal>>,
        AccessError,
    >)
        ensures
            match found {
                Ok(iter) => self.tickers().contains_key(label@) && decimal_series(
                    self.tickers()[label@].candles@,
                    self.tickers()[label@].precision as int,
                    iter.remaining(),
                ),
                Err(error) => !self.tickers().contains_key(label@) && reports(
                    error,
                    ErrorKind::TickerNotFound,
                    label@,
                ),
            },
    {
        match self.get_ticker(label) {
            Ok(ticker) => Ok(ticker.get_candles_decimal_iter()),
            Err(error) => Err(error),
        }
    }

    /// The candle series under `label` in exact decimals at that series'
    /// own precision.
    pub fn get_candles_decimal(&self, label: &str) -> (found: Result<
        Vec<Candle<FixedDecimal>>,
        AccessError,
    >)
        ensures
            match found {
                Ok(candles) => self.tickers().contains_key(label@) && decimal_series(
                    self.tickers()[label@].candles@,
                    self.tickers()[label@].precision as int,
                    candles@,
                ),
                Err(error) => !self.tickers().contains_key(label@) && reports(
                    error,
                    ErrorKind::TickerNotFound,
                    label@,
                ),
            },
    {
        match self.get_ticker(label) {
            Ok(ticker) => Ok(ticker.get_candles_decimal()),
            Err(error) => Err(error),
        }
    }
}

} // verus!
