// A WebSocket front end that runs one worker process per inbound message:
// `outcome` turns what the worker did into an outcome, and `handler` decides,
// for one connection, what to do with each frame and each outcome.

pub mod codes;
pub mod handler;
pub mod outcome;
