//! The decision core of an asyncio-compatible event loop.
//!
//! Everything that the loop decides, buffers or schedules is held here as plain values and
//! verified. Python objects, sockets, child processes and threads are named by integers; the code
//! around this library performs the calls that a function asks for and hands the outcome back.

pub mod answer_laws;
pub mod asyncgens;
pub mod connect;
pub mod connect_laws;
pub mod connection_flow;
pub mod error_laws;
pub mod executor;
pub mod extra_info;
pub mod fast_path_laws;
pub mod helper_laws;
pub mod loop_commands;
pub mod loop_core;
pub mod loop_life;
pub mod loop_run;
pub mod loop_run_laws;
pub mod loop_thread_laws;
pub mod loop_watch_laws;
pub mod machine_laws;
pub mod newlines;
pub mod objects;
pub mod read_buffer;
pub mod operation_laws;
pub mod os_constants;
pub mod pre_exec;
pub mod process_laws;
pub mod process_request_laws;
pub mod process_transport;
pub mod py_loop;
pub mod py_stream_transport;
pub mod read_events;
pub mod read_events_laws;
pub mod reader_answer_laws;
pub mod reader_fast_path;
pub mod separators;
pub mod server;
pub mod server_flow;
pub mod server_laws;
pub mod sock_ops;
pub mod stream_flow_laws;
pub mod stream_io;
pub mod stream_protocol;
pub mod stream_reader;
pub mod stream_reader_laws;
pub mod stream_transport;
pub mod stream_writer;
pub mod stream_writer_laws;
pub mod subprocess;
pub mod subprocess_flow;
pub mod tasks;
pub mod text;
pub mod tls_io;
pub mod transport_laws;
pub mod transport_start;
pub mod write_buffer;
