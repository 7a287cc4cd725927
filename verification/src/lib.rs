//! Verified timing cores of a client's skill and status effects: spawn
//! schedules, per-frame alpha and size curves, live-primitive bookkeeping
//! and end-of-effect decisions, with exact integer units. Time is counted
//! in 60 fps frames or, where an effect's curves run on fractional time, in
//! ticks, a caller-chosen fraction of a frame. Geometry and drawing are the
//! renderer's.
use vstd::prelude::*;

pub mod bursts;
pub mod draw;
pub mod grains;
pub mod peong;
pub mod peong_up;
pub mod pierce;
pub mod placeholder;
pub mod pokjuk;
pub mod portal2;
pub mod portal;
pub mod portal_wind;
pub mod potion_berserk;
pub mod potion_pillar;
pub mod providence;
pub mod quakebody;
pub mod rainbow;
pub mod revive;
pub mod rg_coin;
pub mod rng;
pub mod saint_casting;
pub mod sakura;
pub mod sandwind;
pub mod sight;
pub mod slash;
pub mod sma;
pub mod sonicblowhit;
pub mod soul_breaker;
pub mod soul_strike;
pub mod soullink;
pub mod sparkle_column;
pub mod spearbmr;
pub mod spherewind;
pub mod spike_burst;
pub mod spike_util;
pub mod spinedbody;
pub mod spraypond;
pub mod squarebody;
pub mod status_up;
pub mod stin;
pub mod storm_kick;
pub mod stormgust;
pub mod summon_slave;
pub mod super_angel;
pub mod taeready;
pub mod tarot_card;
pub mod teihit;
pub mod teleportation;
pub mod temp_result;
pub mod texture_falling;
pub mod throw_item;
pub mod thunderstorm2;
pub mod toprank;
pub mod tripleattack;
pub mod turnundead;
pub mod twilight;
pub mod venomdust2;
pub mod volcano;
pub mod warp;

verus! {

} // verus!
