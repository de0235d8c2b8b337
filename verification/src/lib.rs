//! The safe core of a binding to a native 3D-audio engine.
//!
//! The engine is reached through a flat C interface: integer handles that
//! are reference counted on the engine's side, numeric status codes, and
//! callbacks. This library holds the rules of the binding as plain data and
//! verified functions: which engine call a handle operation owes, what a
//! status code means, which runtime tags a wrapper accepts, how the userdata
//! of an object is kept and reclaimed, and what a stream callback answers.
//! The code that actually crosses into the engine performs the calls that
//! the functions here ask for and hands back what the engine answered.
use vstd::prelude::*;

pub mod automation_batch;
pub mod biquad;
pub mod buffer;
pub mod casting;
pub mod context;
pub mod cstring;
pub mod custom_streams;
pub mod delete_config;
pub mod effects;
pub mod enums;
pub mod errors;
pub mod events;
pub mod generator;
pub mod handle;
pub mod initialization;
pub mod memory_stream;
pub mod properties;
pub mod routes;
pub mod source;
pub mod userdata;

pub use automation_batch::{AutomationAction, AutomationBatch, AutomationCommand};
pub use biquad::BiquadConfig;
pub use buffer::Buffer;
pub use casting::{try_cast_from, CastTarget};
pub use context::Context;
pub use custom_streams::{
    close_cb, destroy_cb, open_outcome, read_outcome, register_stream_protocol, seek_cb,
    status_outcome, stream_open_callback, stream_read_cb, CloseStream, CustomStreamDef, SeekFrom,
    SeekableStream, Stream, StreamHandle, StreamState,
};
pub use delete_config::{DeleteBehaviorCall, DeleteBehaviorConfig, DeleteBehaviorConfigBuilder};
pub use effects::{EchoCall, EchoTapConfig, GlobalEcho, GlobalFdnReverb};
pub use enums::{
    DistanceModel, I32TransmutableEnum, InterpolationType, LogLevel, NoiseType, ObjectType,
    PannerStrategy,
};
pub use errors::{check_error, error_from_code, Error, ErrorKind};
pub use events::{Event, EventIterator, EventType, RawEvent, RawEventKind};
pub use generator::{
    BufferGenerator, FastSineBankGenerator, Generator, IsGenerator, NoiseGenerator, SineBankWave,
    StreamingGenerator,
};
pub use handle::{EngineCall, Handle, HandleOp, HandleRef, ObjectCall, ToSyzHandle};
pub use initialization::{
    initialize, shutdown, with_witness, InitializationGuard, LibraryConfig, LoggingBackend,
    Witness,
};
pub use memory_stream::MemoryStream;
pub use properties::{
    BoolProperty, Double3Property, Double6Property, DoubleProperty, EnumProperty, IntProperty,
    ObjectProperty, PropertyValue, PropertyWrite, SyzProperty,
};
pub use routes::{RouteCall, RouteConfig, RouteConfigBuilder, RouteInput, RouteOutput};
pub use source::{
    AngularPannedSource, DirectSource, PannedSource, ScalarPannedSource, Source, Source3D,
};
pub use userdata::{
    drop_userdata_cb, wrap_constructor, wrap_file_constructor, BoxArena, UserdataBox,
    UserdataEntry, UserdataTable,
};
