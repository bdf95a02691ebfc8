//! A telnet service that negotiates a client's terminal and streams ASCII animations.
//!
//! The verified core consists of the movement-script codec, the incremental
//! rollercoaster renderer, the cyclic flicker animations and the telnet
//! negotiation state machine. Sockets, tasks and timers live outside the library.
pub mod animations;
pub mod canvas;
pub mod coaster;
pub mod movement;
pub mod telnet;
