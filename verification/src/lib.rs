//! Interactive worktree selection library: discovers the worktrees of a
//! repository, renders each as a fixed-layout searchable line with match
//! spans, orders them by recency for streaming into an external selector,
//! generates rich previews, and plans destructive worktree removal.

pub mod age;
pub mod gitcalls;
pub mod item;
pub mod locate;
pub mod meta;
pub mod preview;
pub mod removal;
pub mod stream;
pub mod strutil;
