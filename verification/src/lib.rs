//! Dining philosophers with bounded-wait acquisition, back-off and retry.
//!
//! A fixed ring of forks is shared pairwise by the philosophers seated around
//! it. Each philosopher alternates between thinking and eating; to eat it
//! must hold both of its forks. A fork is only ever waited for during a
//! bounded time, and a philosopher that obtained only one fork returns it
//! before trying again, so no circular wait can last.
//!
//! * [`seating`] says which forks belong to which seat, and [`ring`] lays
//!   the table with one lock for each fork ([`locks`]).
//! * [`protocol`] is the life of one philosopher as a state machine that
//!   decides and does nothing else; [`script`] tells the same life as a list
//!   of actions, [`progress`] shows that it ends and never keeps a single
//!   fork, and [`table`] that no fork is ever in two hands.
//! * [`philosopher`] carries the protocol out on the forks of a table and
//!   asks its caller to speak, to sleep and to publish; [`policy`] and
//!   [`chance`] give the pauses their length, [`report`] and [`journal`]
//!   the words.
pub mod seating;
pub mod locks;
pub mod ring;
pub mod protocol;
pub mod script;
pub mod progress;
pub mod table;
pub mod chance;
pub mod policy;
pub mod report;
pub mod journal;
pub mod philosopher;
