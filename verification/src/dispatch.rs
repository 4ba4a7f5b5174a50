//! The decisions of the ingestion loop: where a stream is written and
//! published, and what becomes of each frame.
//!
//! The loop itself, the files and the connections belong to the caller. A
//! `Dispatcher` is told of each frame and answers with what to do.

use vstd::prelude::*;
use vstd::string::StringExecFns;
use crate::book::books_well_formed;
use crate::message::{
    books_outcome, trades_consistent, trades_outcome, MarketType, MessageType, OrderBookMsg,
    ParseError, RawFrame, RawFrameView, TradeMsg,
};
use crate::parser::{books_read, has_reader, parse_l2, parse_trade, supports, trades_read};
use crate::text::{joined, string_views};

verus! {

/// Why a stream cannot be started.
#[derive(Clone, Copy, Debug, PartialEq, Eq, Hash, Structural)]
pub enum ConfigError {
    /// Neither a data directory nor a publisher is configured.
    NoSink,
    /// Frames are to be normalized but the combination has no reader.
    NoReader,
}

/// The key of a stream's writer: `<msg_type>-<exchange>-<market_type>`.
pub open spec fn key_of(msg_type: MessageType, exchange: Seq<char>, market_type: MarketType) -> Seq<
    char,
> {
    msg_type.spec_name() + "-"@ + exchange + "-"@ + market_type.spec_name()
}

/// The directory of a stream's file:
/// `<data_dir>/<msg_type>/<exchange>/<market_type>`.
pub open spec fn directory_of(
    data_dir: Seq<char>,
    msg_type: MessageType,
    exchange: Seq<char>,
    market_type: MarketType,
) -> Seq<char> {
    data_dir + "/"@ + msg_type.spec_name() + "/"@ + exchange + "/"@ + market_type.spec_name()
}

/// The name of a stream's file: `<exchange>.<market_type>.<msg_type>`.
pub open spec fn file_name_of(
    exchange: Seq<char>,
    market_type: MarketType,
    msg_type: MessageType,
) -> Seq<char> {
    exchange + "."@ + market_type.spec_name() + "."@ + msg_type.spec_name()
}

/// The path of a stream's file: its name under its directory.
pub open spec fn path_of(
    data_dir: Seq<char>,
    msg_type: MessageType,
    exchange: Seq<char>,
    market_type: MarketType,
) -> Seq<char> {
    directory_of(data_dir, msg_type, exchange, market_type) + "/"@ + file_name_of(
        exchange,
        market_type,
        msg_type,
    )
}

/// The channel that a stream is published to: `<prefix>:<msg_type>`.
pub open spec fn channel_of(prefix: Seq<char>, msg_type: MessageType) -> Seq<char> {
    prefix + ":"@ + msg_type.spec_name()
}

/// The key of a stream's writer.
pub fn writer_key(msg_type: MessageType, exchange: &str, market_type: MarketType) -> (r: String)
    ensures
        r@ == key_of(msg_type, exchange@, market_type),
{
    let mut key = joined(msg_type.name(), "-", exchange);
    key.append("-");
    key.append(market_type.name());
    key
}

/// The directory of a stream's file.
pub fn output_directory(
    data_dir: &str,
    msg_type: MessageType,
    exchange: &str,
    market_type: MarketType,
) -> (r: String)
    ensures
        r@ == directory_of(data_dir@, msg_type, exchange@, market_type),
{
    let mut dir = joined(data_dir, "/", msg_type.name());
    dir.append("/");
    dir.append(exchange);
    dir.append("/");
    dir.append(market_type.name());
    dir
}

/// The name of a stream's file.
pub fn file_name(exchange: &str, market_type: MarketType, msg_type: MessageType) -> (r: String)
    ensures
        r@ == file_name_of(exchange@, market_type, msg_type),
{
    let mut name = joined(exchange, ".", market_type.name());
    name.append(".");
    name.append(msg_type.name());
    name
}

/// The path of a stream's file.
pub fn file_path(
    data_dir: &str,
    msg_type: MessageType,
    exchange: &str,
    market_type: MarketType,
) -> (r: String)
    ensures
        r@ == path_of(data_dir@, msg_type, exchange@, market_type),
{
    let dir = output_directory(data_dir, msg_type, exchange, market_type);
    let name = file_name(exchange, market_type, msg_type);
    joined(dir.as_str(), "/", name.as_str())
}

/// The channel that a stream is published to.
pub fn channel_name(prefix: &str, msg_type: MessageType) -> (r: String)
    ensures
        r@ == channel_of(prefix@, msg_type),
{
    joined(prefix, ":", msg_type.name())
}

/// Whether a stream can be started: it needs a sink, and a reader when its
/// frames are to be normalized.
pub open spec fn config_checked(
    exchange: Seq<char>,
    market_type: MarketType,
    msg_type: MessageType,
    has_data_dir: bool,
    publishes: bool,
    normalizes: bool,
) -> Result<(), ConfigError> {
    if !has_data_dir && !publishes {
        Err(ConfigError::NoSink)
    } else if normalizes && !has_reader(exchange, market_type, msg_type) {
        Err(ConfigError::NoReader)
    } else {
        Ok(())
    }
}

/// Checks at startup that a stream can be started.
pub fn check_config(
    exchange: &str,
    market_type: MarketType,
    msg_type: MessageType,
    has_data_dir: bool,
    publishes: bool,
    normalizes: bool,
) -> (r: Result<(), ConfigError>)
    ensures
        r == config_checked(exchange@, market_type, msg_type, has_data_dir, publishes, normalizes),
{
    if !has_data_dir && !publishes {
        Err(ConfigError::NoSink)
    } else if normalizes && !supports(exchange, market_type, msg_type) {
        Err(ConfigError::NoReader)
    } else {
        Ok(())
    }
}

/// A file to open before the first write of a stream.
pub struct WriterSpec {
    pub key: String,
    pub directory: String,
    pub path: String,
}

/// What a frame turns into.
pub enum Records {
    /// The frame is passed on as it came.
    Raw,
    Trades(Vec<TradeMsg>),
    Books(Vec<OrderBookMsg>),
}

/// What to do with one frame: open the stream's file first if `open` says
/// so, then write and publish the records, or report the error and go on
/// with the next frame.
pub struct Step {
    pub open: Option<WriterSpec>,
    pub records: Result<Records, ParseError>,
}

/// The state of one stream.
pub struct Dispatcher {
    exchange: String,
    market_type: MarketType,
    msg_type: MessageType,
    data_dir: Option<String>,
    normalizes: bool,
    quotes: Vec<String>,
    writer_open: bool,
}

/// What a `Dispatcher` holds.
pub struct DispatcherView {
    pub exchange: Seq<char>,
    pub market_type: MarketType,
    pub msg_type: MessageType,
    pub data_dir: Option<Seq<char>>,
    pub normalizes: bool,
    /// The table by which Huobi's spot symbols are split.
    pub quotes: Seq<Seq<char>>,
    pub writer_open: bool,
}

impl View for Dispatcher {
    type V = DispatcherView;

    closed spec fn view(&self) -> DispatcherView {
        DispatcherView {
            exchange: self.exchange@,
            market_type: self.market_type,
            msg_type: self.msg_type,
            data_dir: match self.data_dir {
                Some(dir) => Some(dir@),
                None => None,
            },
            normalizes: self.normalizes,
            quotes: string_views(self.quotes@),
            writer_open: self.writer_open,
        }
    }
}

/// Whether `records` is what a frame may turn into for a stream.
///
/// A stream that does not normalize passes every frame on as it came. One
/// that does reads the frame's text with the reader of the frame's own
/// exchange and market type, as the stream's message type asks, with the
/// stream's table of quotes and the frame's time of receipt.
pub open spec fn records_fit(d: DispatcherView, frame: RawFrameView, records: Result<
    Records,
    ParseError,
>) -> bool {
    if !d.normalizes {
        records matches Ok(Records::Raw)
    } else if d.msg_type == MessageType::Trade {
        match records {
            Ok(Records::Trades(trades)) => trades_consistent(trades@) && trades_read(
                frame.exchange,
                frame.market_type,
                frame.json,
                d.quotes,
                trades_outcome(Ok(trades)),
            ),
            Err(e) => trades_read(
                frame.exchange,
                frame.market_type,
                frame.json,
                d.quotes,
                Err(e),
            ),
            _ => false,
        }
    } else if d.msg_type == MessageType::L2Event {
        match records {
            Ok(Records::Books(books)) => books_well_formed(books@) && books_read(
                frame.exchange,
                frame.market_type,
                frame.json,
                d.quotes,
                frame.received_at,
                books_outcome(Ok(books)),
            ),
            Err(e) => books_read(
                frame.exchange,
                frame.market_type,
                frame.json,
                d.quotes,
                frame.received_at,
                Err(e),
            ),
            _ => false,
        }
    } else {
        records matches Err(ParseError::UnsupportedMessageType)
    }
}

/// Whether `open` names the file of a stream.
pub open spec fn names_file(d: DispatcherView, open: WriterSpec) -> bool {
    &&& d.data_dir is Some
    &&& open.key@ == key_of(d.msg_type, d.exchange, d.market_type)
    &&& open.directory@ == directory_of(d.data_dir->0, d.msg_type, d.exchange, d.market_type)
    &&& open.path@ == path_of(d.data_dir->0, d.msg_type, d.exchange, d.market_type)
}

impl Dispatcher {
    /// Starts a stream, or refuses a configuration that cannot run.
    /// `quotes` is the table by which Huobi's spot symbols are split.
    pub fn new(
        exchange: &str,
        market_type: MarketType,
        msg_type: MessageType,
        data_dir: Option<String>,
        publishes: bool,
        normalizes: bool,
        quotes: Vec<String>,
    ) -> (r: Result<Dispatcher, ConfigError>)
        ensures
            match r {
                Ok(d) => config_checked(
                    exchange@,
                    market_type,
                    msg_type,
                    data_dir is Some,
                    publishes,
                    normalizes,
                ) is Ok && d@ == (DispatcherView {
                    exchange: exchange@,
                    market_type,
                    msg_type,
                    data_dir: match data_dir {
                        Some(dir) => Some(dir@),
                        None => None,
                    },
                    normalizes,
                    quotes: string_views(quotes@),
                    writer_open: false,
                }),
                Err(e) => config_checked(
                    exchange@,
                    market_type,
                    msg_type,
                    data_dir is Some,
                    publishes,
                    normalizes,
                ) == Err::<(), ConfigError>(e),
            },
    {
        match check_config(
            exchange,
            market_type,
            msg_type,
            data_dir.is_some(),
            publishes,
            normalizes,
        ) {
            Ok(()) => Ok(
                Dispatcher {
                    exchange: exchange.to_owned(),
                    market_type,
                    msg_type,
                    data_dir,
                    normalizes,
                    quotes,
                    writer_open: false,
                },
            ),
            Err(e) => Err(e),
        }
    }

    /// Decides what becomes of one frame.
    ///
    /// The stream's file is opened once, before the first frame, when a data
    /// directory is configured. A frame that cannot be read is reported in
    /// `records` and leaves the stream as it would a frame that can.
    pub fn on_frame(&mut self, frame: &RawFrame) -> (step: Step)
        ensures
            step.open is Some <==> old(self)@.data_dir is Some && !old(self)@.writer_open,
            step.open matches Some(open) ==> names_file(old(self)@, open),
            final(self)@ == (DispatcherView {
                writer_open: old(self)@.writer_open || old(self)@.data_dir is Some,
                ..old(self)@
            }),
            records_fit(old(self)@, frame@, step.records),
    {
        let open = match &self.data_dir {
            Some(dir) => {
                if self.writer_open {
                    None
                } else {
                    Some(
                        WriterSpec {
                            key: writer_key(
                                self.msg_type,
                                self.exchange.as_str(),
                                self.market_type,
                            ),
                            directory: output_directory(
                                dir.as_str(),
                                self.msg_type,
                                self.exchange.as_str(),
                                self.market_type,
                            ),
                            path: file_path(
                                dir.as_str(),
                                self.msg_type,
                                self.exchange.as_str(),
                                self.market_type,
                            ),
                        },
                    )
                }
            },
            None => None,
        };
        if self.data_dir.is_some() {
            self.writer_open = true;
        }
        let records = if !self.normalizes {
            Ok(Records::Raw)
        } else {
            match self.msg_type {
                MessageType::Trade => match parse_trade(
                    frame.exchange.as_str(),
                    frame.market_type,
                    frame.json.as_str(),
                    &self.quotes,
                ) {
                    Ok(trades) => Ok(Records::Trades(trades)),
                    Err(e) => Err(e),
                },
                MessageType::L2Event => match parse_l2(
                    frame.exchange.as_str(),
                    frame.market_type,
                    frame.json.as_str(),
                    &self.quotes,
                    frame.received_at,
                ) {
                    Ok(books) => Ok(Records::Books(books)),
                    Err(e) => Err(e),
                },
                _ => Err(ParseError::UnsupportedMessageType),
            }
        };
        Step { open, records }
    }
}

} // verus!
