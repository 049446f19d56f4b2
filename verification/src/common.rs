//! The capability every backup job offers: identity, placement and schedule.
//! The backup act itself is split, on each job type, into a pure plan and
//! pure result handling, so that the surrounding process can run the external
//! tools between the two.
use vstd::prelude::*;
use crate::config::ScheduleConfig;
use crate::config::ServiceType;

verus! {

pub trait BackupService {
    /// The job's configured name.
    spec fn spec_alias(&self) -> Seq<char>;

    /// The directory artifacts are written to.
    spec fn spec_backup_dir(&self) -> Seq<char>;

    /// The kind of store backed up.
    spec fn spec_service_type(&self) -> ServiceType;

    /// Seconds between two runs.
    spec fn spec_interval_seconds(&self) -> u64;

    fn alias(&self) -> (r: &str)
        ensures
            r@ == self.spec_alias(),
    ;

    fn backup_dir(&self) -> (r: &str)
        ensures
            r@ == self.spec_backup_dir(),
    ;

    fn service_type(&self) -> (r: &ServiceType)
        ensures
            *r == self.spec_service_type(),
    ;

    fn get_schedule(&self) -> (r: &ScheduleConfig)
        ensures
            r.interval_seconds == self.spec_interval_seconds(),
    ;
}

} // verus!
