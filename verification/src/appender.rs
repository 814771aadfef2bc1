//! The appender: the synchronous entry point of the emitting threads, and
//! the builder that assembles it with its channel and its worker.
//!
//! The appender is generic in its encoder, which it only keeps: rendering is
//! the caller's affair, and [`FluentdAppender::append`] takes what came of it.

use crate::channel::{Channel, ChannelView};
use crate::level::Level;
use crate::record::{LogRecord, RecordView};
use crate::worker::{Worker, WorkerView};
use std::time::SystemTime;
use vstd::prelude::*;
use vstd::utf8::*;

verus! {

/// The text that `String::from_utf8_lossy` makes of `bytes`.
pub uninterp spec fn utf8_lossy(bytes: Seq<u8>) -> Seq<char>;

/// Decodes rendered bytes with `String::from_utf8_lossy`, which replaces
/// each invalid sequence by U+FFFD and leaves valid UTF-8 as the text that
/// it encodes.
#[verifier::external_body]
fn decode_lossy(bytes: &Vec<u8>) -> (text: String)
    ensures
        text@ == utf8_lossy(bytes@),
        valid_utf8(bytes@) ==> text@ == decode_utf8(bytes@),
{
    String::from_utf8_lossy(bytes).into_owned()
}

/// The record of an event with the given target and level, whose rendering
/// gave `rendered`, emitted at `time`.
pub open spec fn event_record(
    target: Seq<char>,
    level: Level,
    rendered: Seq<u8>,
    time: SystemTime,
) -> RecordView {
    RecordView { target, level: level.name(), message: utf8_lossy(rendered), time }
}

/// Why an event was not handed off.
#[derive(Debug, PartialEq, Eq)]
pub enum DeliveryError<R> {
    /// The encoder failed; this is its error.
    Render(R),
    /// The channel takes no more records: the worker has ended and gave
    /// up the receiver, or no sender is held any more.
    ChannelClosed,
}

/// The appender: keeps the encoder and hands rendered events to the channel.
#[derive(Debug)]
pub struct FluentdAppender<E> {
    encoder: E,
}

/// Builder for [`FluentdAppender`].
#[derive(Debug)]
pub struct FluentdAppenderBuilder<E> {
    encoder: Option<E>,
    tag: String,
}

/// What a [`FluentdAppenderBuilder`] holds, as mathematical values.
pub struct BuilderView<E> {
    pub encoder: Option<E>,
    pub tag: Seq<char>,
}

/// What [`FluentdAppenderBuilder::build`] assembles: the appender for the
/// emitting threads, the channel between them and the worker, and the worker
/// for the background task.
#[derive(Debug)]
pub struct Pipeline<E> {
    pub appender: FluentdAppender<E>,
    pub channel: Channel,
    pub worker: Worker,
}

impl<E> View for FluentdAppenderBuilder<E> {
    type V = BuilderView<E>;

    closed spec fn view(&self) -> BuilderView<E> {
        BuilderView { encoder: self.encoder, tag: self.tag@ }
    }
}

impl<E> FluentdAppender<E> {
    /// The encoder that the appender was built with.
    pub closed spec fn encoder_spec(&self) -> E {
        self.encoder
    }

    /// A builder with no encoder chosen and the empty tag.
    pub fn builder() -> (builder: FluentdAppenderBuilder<E>)
        ensures
            builder@ == (BuilderView::<E> { encoder: None, tag: Seq::empty() }),
    {
        FluentdAppenderBuilder { encoder: None, tag: String::new() }
    }

    /// The encoder with which the caller renders an event.
    pub fn encoder(&self) -> (encoder: &E)
        ensures
            *encoder == self.encoder_spec(),
    {
        &self.encoder
    }

    /// Hands one event to the channel, without waiting for the worker.
    ///
    /// `rendered` is what the encoder made of the event. A failure of the
    /// encoder is passed on and nothing is enqueued. Otherwise the bytes are
    /// decoded, the record is stamped with the current time and appended to
    /// the queue, unless the channel no longer accepts records.
    pub fn append<R>(
        &self,
        channel: &mut Channel,
        target: &str,
        level: Level,
        rendered: Result<Vec<u8>, R>,
    ) -> (outcome: Result<(), DeliveryError<R>>)
        ensures
            match rendered {
                Err(failure) => {
                    &&& outcome == Err::<(), DeliveryError<R>>(DeliveryError::Render(failure))
                    &&& final(channel)@ == old(channel)@
                },
                Ok(bytes) => {
                    &&& old(channel)@.accepts() ==> outcome is Ok
                    &&& !old(channel)@.accepts() ==> outcome == Err::<(), DeliveryError<R>>(
                        DeliveryError::ChannelClosed,
                    )
                    &&& exists|time: SystemTime|
                        final(channel)@ == old(channel)@.after_send(
                            #[trigger] event_record(target@, level, bytes@, time),
                        )
                },
            },
    {
        match rendered {
            Err(failure) => Err(DeliveryError::Render(failure)),
            Ok(bytes) => {
                let message = decode_lossy(&bytes);
                let label = level.label();
                let record = LogRecord::new(target, label.as_str(), message.as_str());
                assert(record@ == event_record(target@, level, bytes@, record@.time));
                match channel.send(record) {
                    Ok(()) => Ok(()),
                    Err(_) => Err(DeliveryError::ChannelClosed),
                }
            },
        }
    }

    /// Does nothing: records that were handed off are sent by the worker in
    /// its own time, and a flush does not wait for them.
    pub fn flush(&self) {
    }
}

impl<E> FluentdAppenderBuilder<E> {
    /// Chooses the encoder.
    pub fn encoder(self, encoder: E) -> (builder: Self)
        ensures
            builder@ == (BuilderView { encoder: Some(encoder), tag: self@.tag }),
    {
        FluentdAppenderBuilder { encoder: Some(encoder), tag: self.tag }
    }

    /// Sets the tag under which the records are sent.
    pub fn tag(self, tag: &str) -> (builder: Self)
        ensures
            builder@ == (BuilderView { encoder: self@.encoder, tag: tag@ }),
    {
        FluentdAppenderBuilder { encoder: self.encoder, tag: tag.to_owned() }
    }

    /// Consumes the builder and assembles the pipeline for the collector at
    /// `addr`: the appender with the chosen encoder, or with `fallback` where
    /// none was chosen, a fresh channel, and a worker that is about to
    /// connect.
    pub fn build(self, addr: String, fallback: E) -> (pipeline: Pipeline<E>)
        ensures
            pipeline.appender.encoder_spec() == match self@.encoder {
                Some(encoder) => encoder,
                None => fallback,
            },
            pipeline.channel@ == ChannelView::fresh(),
            pipeline.worker@ == WorkerView::start(self@.tag, addr@),
    {
        let encoder = match self.encoder {
            Some(encoder) => encoder,
            None => fallback,
        };
        Pipeline {
            appender: FluentdAppender { encoder },
            channel: Channel::new(),
            worker: Worker::new(self.tag, addr),
        }
    }
}

} // verus!
