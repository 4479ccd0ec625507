//! The scheduler's table: one cron schedule per registered service.
use vstd::prelude::*;

verus! {

#[verifier::external_type_specification]
#[verifier::external_body]
pub struct ExCronSchedule(cron::Schedule);

#[verifier::external_type_specification]
#[verifier::external_body]
pub struct ExCronError(cron::error::Error);

/// Whether cron accepts `expression` as a schedule.
pub uninterp spec fn cron_accepts(expression: Seq<char>) -> bool;

/// Relies on cron's `Schedule::from_str`: whether it parses depends on the
/// expression text alone.
#[verifier::external_body]
fn parse_cron(expression: &str) -> (r: Result<cron::Schedule, cron::error::Error>)
    ensures
        r is Ok <==> cron_accepts(expression@),
{
    <cron::Schedule as std::str::FromStr>::from_str(expression)
}

/// Why a service could not be registered.
#[derive(Clone, Copy, Debug, PartialEq, Eq, Structural)]
pub enum ScheduleError {
    /// The schedule expression does not parse.
    InvalidScheduleExpression,
}

/// A service and the schedule on which it is triggered, with the
/// expression the schedule was parsed from.
pub struct ScheduledJob {
    service: String,
    expression: String,
    schedule: cron::Schedule,
}

impl ScheduledJob {
    pub closed spec fn service_name(&self) -> Seq<char> {
        self.service@
    }

    pub closed spec fn expression_text(&self) -> Seq<char> {
        self.expression@
    }

    /// The job as a service name and a schedule expression.
    pub open spec fn entry(&self) -> (Seq<char>, Seq<char>) {
        (self.service_name(), self.expression_text())
    }

    /// The expression this job's schedule was parsed from.
    pub fn expression(&self) -> (r: &String)
        ensures
            r@ == self.expression_text(),
    {
        &self.expression
    }

    /// The service this job triggers.
    pub fn service(&self) -> (r: &String)
        ensures
            r@ == self.service_name(),
    {
        &self.service
    }

    /// When this job fires: the schedule parsed from `expression`.
    pub fn schedule(&self) -> &cron::Schedule {
        &self.schedule
    }
}

/// The registered jobs, in order of registration.
pub struct Scheduler {
    jobs: Vec<ScheduledJob>,
}

impl View for Scheduler {
    type V = Seq<(Seq<char>, Seq<char>)>;

    /// The registered services with their schedule expressions, in order of
    /// registration.
    closed spec fn view(&self) -> Seq<(Seq<char>, Seq<char>)> {
        self.jobs@.map_values(|j: ScheduledJob| j.entry())
    }
}

impl Scheduler {
    /// A scheduler with no jobs.
    pub fn new() -> (r: Scheduler)
        ensures
            r@ == Seq::<(Seq<char>, Seq<char>)>::empty(),
    {
        let r = Scheduler { jobs: Vec::new() };
        assert(r@ =~= Seq::<(Seq<char>, Seq<char>)>::empty());
        r
    }

    /// The registered jobs.
    pub fn jobs(&self) -> (r: &Vec<ScheduledJob>)
        ensures
            r@.map_values(|j: ScheduledJob| j.entry()) == self@,
    {
        &self.jobs
    }

    /// Adds a job for `service_name` from the outcome of parsing its
    /// schedule `expression`; a parse error leaves the table unchanged.
    pub fn add_parsed(&mut self, service_name: &str, expression: &str, parsed: Result<cron::Schedule, cron::error::Error>) -> (r: Result<(), ScheduleError>)
        ensures
            r is Ok <==> parsed is Ok,
            r is Ok ==> final(self)@ == old(self)@.push((service_name@, expression@)),
            r is Err ==> final(self)@ == old(self)@ && r == Err::<(), ScheduleError>(ScheduleError::InvalidScheduleExpression),
    {
        match parsed {
            Ok(schedule) => {
                let job = ScheduledJob {
                    service: String::from_str(service_name),
                    expression: String::from_str(expression),
                    schedule,
                };
                self.jobs.push(job);
                assert(self@ =~= old(self)@.push((service_name@, expression@)));
                Ok(())
            },
            Err(_) => Err(ScheduleError::InvalidScheduleExpression),
        }
    }

    /// Registers `service_name` to be triggered on the cron schedule
    /// `expression`.
    pub fn register(&mut self, service_name: &str, expression: &str) -> (r: Result<(), ScheduleError>)
        ensures
            r is Ok <==> cron_accepts(expression@),
            r is Ok ==> final(self)@ == old(self)@.push((service_name@, expression@)),
            r is Err ==> final(self)@ == old(self)@ && r == Err::<(), ScheduleError>(ScheduleError::InvalidScheduleExpression),
    {
        let parsed = parse_cron(expression);
        self.add_parsed(service_name, expression, parsed)
    }
}

} // verus!
