//! The rules of a small side-scrolling arcade game: a player falls under
//! gravity, flaps to rise, and has to slip through the gap of each obstacle
//! that scrolls towards it. The crate holds the simulation, the table of best
//! runs and the mode machine that ties them together; drawing and input are
//! left to the caller, who feeds in one key and one time step per frame.

pub mod bracket;
pub mod difficulty;
pub mod game;
pub mod obstacle;
pub mod player;
pub mod records;
pub mod screen;
