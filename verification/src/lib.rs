//! Privilege-level bootstrap for an asymmetric multi-core machine, plus the
//! fault-injection harness that validates memory protection and exception
//! delivery before the kernel trusts them.
//!
//! The crate models the earliest boot layer as plain data: the decision taken
//! at reset on every core ([`boot`]), the register operations that carry the
//! boot core from the elevated execution level down to the kernel's runtime
//! level ([`machine`], [`transition`]), and the state machine of the
//! verification harness that deliberately faults once protection is up
//! ([`harness`]), together with the exact bit images the hardware consumes
//! for each typed register value ([`encoding`]). The hardware itself —
//! privileged register writes, the return-from-exception and wait-for-event
//! instructions, the host-visible exit — sits outside this crate and performs
//! the operations these functions compute.

pub mod boot;
pub mod encoding;
pub mod harness;
pub mod machine;
pub mod transition;
