//! The statistics that a queue backend reports, by name and by kind.
use vstd::prelude::*;
use vstd::string::StringExecFns;
use crate::text::same_text;

verus! {

/// How the value of a statistic is to be read.
#[derive(Debug, Clone, Copy, PartialEq, Eq, Structural)]
pub enum StatType {
    /// A count.
    Number,
    /// A share of a hundred.
    Percentage,
    /// A number with a fraction.
    Decimal,
    /// A point in time.
    Timestamp,
}

/// The name of a kind of statistic.
pub open spec fn stat_type_name(kind: StatType) -> Seq<char> {
    match kind {
        StatType::Number => "Number"@,
        StatType::Percentage => "Percentage"@,
        StatType::Decimal => "Decimal"@,
        StatType::Timestamp => "Timestamp"@,
    }
}

impl StatType {
    /// The name of the kind.
    pub fn as_str(&self) -> (name: &'static str)
        ensures
            name@ == stat_type_name(*self),
    {
        match self {
            StatType::Number => "Number",
            StatType::Percentage => "Percentage",
            StatType::Decimal => "Decimal",
            StatType::Timestamp => "Timestamp",
        }
    }
}

/// A statistic that the dashboard knows how to present.
#[derive(Debug, Clone, Copy, PartialEq, Eq, Hash, Structural)]
#[non_exhaustive]
pub enum KnownStatistic {
    RunningJobs,
    PendingJobs,
    FailedJobs,
    ActiveJobs,
    StaleRunningJobs,
    FailureRate,
    JobsPastHour,
    JobsToday,
    FailedJobsToday,
    AvgJobsPerMinutePastHour,
    TotalJobs,
    DoneJobs,
    CompletedJobs,
    KilledJobs,
    SuccessRate,
    AvgJobDurationMins,
    LongestRunningJobMins,
    QueueBacklog,
    JobsPast24Hours,
    JobsPast7Days,
    FailedJobsPast7Days,
    SuccessRatePast24h,
    AvgJobsPerHourPast24h,
    AvgJobsPerDayPast7d,
    MostRecentJob,
    OldestPendingJob,
    PeakHourJobs,
    DbPageSize,
    DbPageCount,
    DbSize,
}

/// The name under which a backend reports a statistic.
pub open spec fn stat_name(stat: KnownStatistic) -> Seq<char> {
    match stat {
        KnownStatistic::RunningJobs => "RUNNING_JOBS"@,
        KnownStatistic::PendingJobs => "PENDING_JOBS"@,
        KnownStatistic::FailedJobs => "FAILED_JOBS"@,
        KnownStatistic::ActiveJobs => "ACTIVE_JOBS"@,
        KnownStatistic::StaleRunningJobs => "STALE_RUNNING_JOBS"@,
        KnownStatistic::FailureRate => "FAILURE_RATE"@,
        KnownStatistic::JobsPastHour => "JOBS_PAST_HOUR"@,
        KnownStatistic::JobsToday => "JOBS_TODAY"@,
        KnownStatistic::FailedJobsToday => "FAILED_JOBS_TODAY"@,
        KnownStatistic::AvgJobsPerMinutePastHour => "AVG_JOBS_PER_MINUTE_PAST_HOUR"@,
        KnownStatistic::TotalJobs => "TOTAL_JOBS"@,
        KnownStatistic::DoneJobs => "DONE_JOBS"@,
        KnownStatistic::CompletedJobs => "COMPLETED_JOBS"@,
        KnownStatistic::KilledJobs => "KILLED_JOBS"@,
        KnownStatistic::SuccessRate => "SUCCESS_RATE"@,
        KnownStatistic::AvgJobDurationMins => "AVG_JOB_DURATION_MINS"@,
        KnownStatistic::LongestRunningJobMins => "LONGEST_RUNNING_JOB_MINS"@,
        KnownStatistic::QueueBacklog => "QUEUE_BACKLOG"@,
        KnownStatistic::JobsPast24Hours => "JOBS_PAST_24_HOURS"@,
        KnownStatistic::JobsPast7Days => "JOBS_PAST_7_DAYS"@,
        KnownStatistic::FailedJobsPast7Days => "FAILED_JOBS_PAST_7_DAYS"@,
        KnownStatistic::SuccessRatePast24h => "SUCCESS_RATE_PAST_24H"@,
        KnownStatistic::AvgJobsPerHourPast24h => "AVG_JOBS_PER_HOUR_PAST_24H"@,
        KnownStatistic::AvgJobsPerDayPast7d => "AVG_JOBS_PER_DAY_PAST_7D"@,
        KnownStatistic::MostRecentJob => "MOST_RECENT_JOB"@,
        KnownStatistic::OldestPendingJob => "OLDEST_PENDING_JOB"@,
        KnownStatistic::PeakHourJobs => "PEAK_HOUR_JOBS"@,
        KnownStatistic::DbPageSize => "DB_PAGE_SIZE"@,
        KnownStatistic::DbPageCount => "DB_PAGE_COUNT"@,
        KnownStatistic::DbSize => "DB_SIZE"@,
    }
}

/// The statistic that a reported name stands for.
pub open spec fn stat_of_name(name: Seq<char>) -> Option<KnownStatistic> {
    if name == "RUNNING_JOBS"@ {
        Some(KnownStatistic::RunningJobs)
    } else if name == "PENDING_JOBS"@ {
        Some(KnownStatistic::PendingJobs)
    } else if name == "FAILED_JOBS"@ {
        Some(KnownStatistic::FailedJobs)
    } else if name == "ACTIVE_JOBS"@ {
        Some(KnownStatistic::ActiveJobs)
    } else if name == "STALE_RUNNING_JOBS"@ {
        Some(KnownStatistic::StaleRunningJobs)
    } else if name == "FAILURE_RATE"@ {
        Some(KnownStatistic::FailureRate)
    } else if name == "JOBS_PAST_HOUR"@ {
        Some(KnownStatistic::JobsPastHour)
    } else if name == "JOBS_TODAY"@ {
        Some(KnownStatistic::JobsToday)
    } else if name == "FAILED_JOBS_TODAY"@ {
        Some(KnownStatistic::FailedJobsToday)
    } else if name == "AVG_JOBS_PER_MINUTE_PAST_HOUR"@ {
        Some(KnownStatistic::AvgJobsPerMinutePastHour)
    } else if name == "TOTAL_JOBS"@ {
        Some(KnownStatistic::TotalJobs)
    } else if name == "DONE_JOBS"@ {
        Some(KnownStatistic::DoneJobs)
    } else if name == "COMPLETED_JOBS"@ {
        Some(KnownStatistic::CompletedJobs)
    } else if name == "KILLED_JOBS"@ {
        Some(KnownStatistic::KilledJobs)
    } else if name == "SUCCESS_RATE"@ {
        Some(KnownStatistic::SuccessRate)
    } else if name == "AVG_JOB_DURATION_MINS"@ {
        Some(KnownStatistic::AvgJobDurationMins)
    } else if name == "LONGEST_RUNNING_JOB_MINS"@ {
        Some(KnownStatistic::LongestRunningJobMins)
    } else if name == "QUEUE_BACKLOG"@ {
        Some(KnownStatistic::QueueBacklog)
    } else if name == "JOBS_PAST_24_HOURS"@ {
        Some(KnownStatistic::JobsPast24Hours)
    } else if name == "JOBS_PAST_7_DAYS"@ {
        Some(KnownStatistic::JobsPast7Days)
    } else if name == "FAILED_JOBS_PAST_7_DAYS"@ {
        Some(KnownStatistic::FailedJobsPast7Days)
    } else if name == "SUCCESS_RATE_PAST_24H"@ {
        Some(KnownStatistic::SuccessRatePast24h)
    } else if name == "AVG_JOBS_PER_HOUR_PAST_24H"@ {
        Some(KnownStatistic::AvgJobsPerHourPast24h)
    } else if name == "AVG_JOBS_PER_DAY_PAST_7D"@ {
        Some(KnownStatistic::AvgJobsPerDayPast7d)
    } else if name == "MOST_RECENT_JOB"@ {
        Some(KnownStatistic::MostRecentJob)
    } else if name == "OLDEST_PENDING_JOB"@ {
        Some(KnownStatistic::OldestPendingJob)
    } else if name == "PEAK_HOUR_JOBS"@ {
        Some(KnownStatistic::PeakHourJobs)
    } else if name == "DB_PAGE_SIZE"@ {
        Some(KnownStatistic::DbPageSize)
    } else if name == "DB_PAGE_COUNT"@ {
        Some(KnownStatistic::DbPageCount)
    } else if name == "DB_SIZE"@ {
        Some(KnownStatistic::DbSize)
    } else {
        None
    }
}

/// The kind of a statistic.
pub open spec fn stat_type_of(stat: KnownStatistic) -> StatType {
    match stat {
        KnownStatistic::FailureRate
        | KnownStatistic::SuccessRate
        | KnownStatistic::SuccessRatePast24h => StatType::Percentage,
        KnownStatistic::AvgJobsPerMinutePastHour
        | KnownStatistic::AvgJobDurationMins
        | KnownStatistic::LongestRunningJobMins
        | KnownStatistic::AvgJobsPerHourPast24h
        | KnownStatistic::AvgJobsPerDayPast7d => StatType::Decimal,
        KnownStatistic::MostRecentJob | KnownStatistic::OldestPendingJob => StatType::Timestamp,
        _ => StatType::Number,
    }
}

/// What is said of a name that stands for no statistic.
pub open spec fn unknown_statistic(name: Seq<char>) -> Seq<char> {
    "Unknown statistic: "@ + name
}

impl KnownStatistic {
    /// The name under which a backend reports the statistic.
    pub fn as_str(&self) -> (name: &'static str)
        ensures
            name@ == stat_name(*self),
    {
        match self {
            KnownStatistic::RunningJobs => "RUNNING_JOBS",
            KnownStatistic::PendingJobs => "PENDING_JOBS",
            KnownStatistic::FailedJobs => "FAILED_JOBS",
            KnownStatistic::ActiveJobs => "ACTIVE_JOBS",
            KnownStatistic::StaleRunningJobs => "STALE_RUNNING_JOBS",
            KnownStatistic::FailureRate => "FAILURE_RATE",
            KnownStatistic::JobsPastHour => "JOBS_PAST_HOUR",
            KnownStatistic::JobsToday => "JOBS_TODAY",
            KnownStatistic::FailedJobsToday => "FAILED_JOBS_TODAY",
            KnownStatistic::AvgJobsPerMinutePastHour => "AVG_JOBS_PER_MINUTE_PAST_HOUR",
            KnownStatistic::TotalJobs => "TOTAL_JOBS",
            KnownStatistic::DoneJobs => "DONE_JOBS",
            KnownStatistic::CompletedJobs => "COMPLETED_JOBS",
            KnownStatistic::KilledJobs => "KILLED_JOBS",
            KnownStatistic::SuccessRate => "SUCCESS_RATE",
            KnownStatistic::AvgJobDurationMins => "AVG_JOB_DURATION_MINS",
            KnownStatistic::LongestRunningJobMins => "LONGEST_RUNNING_JOB_MINS",
            KnownStatistic::QueueBacklog => "QUEUE_BACKLOG",
            KnownStatistic::JobsPast24Hours => "JOBS_PAST_24_HOURS",
            KnownStatistic::JobsPast7Days => "JOBS_PAST_7_DAYS",
            KnownStatistic::FailedJobsPast7Days => "FAILED_JOBS_PAST_7_DAYS",
            KnownStatistic::SuccessRatePast24h => "SUCCESS_RATE_PAST_24H",
            KnownStatistic::AvgJobsPerHourPast24h => "AVG_JOBS_PER_HOUR_PAST_24H",
            KnownStatistic::AvgJobsPerDayPast7d => "AVG_JOBS_PER_DAY_PAST_7D",
            KnownStatistic::MostRecentJob => "MOST_RECENT_JOB",
            KnownStatistic::OldestPendingJob => "OLDEST_PENDING_JOB",
            KnownStatistic::PeakHourJobs => "PEAK_HOUR_JOBS",
            KnownStatistic::DbPageSize => "DB_PAGE_SIZE",
            KnownStatistic::DbPageCount => "DB_PAGE_COUNT",
            KnownStatistic::DbSize => "DB_SIZE",
        }
    }

    /// The kind of the statistic: rates are percentages, averages and
    /// durations are decimals, the two job dates are timestamps, and
    /// everything else is a count.
    pub fn stat_type(&self) -> (kind: StatType)
        ensures
            kind == stat_type_of(*self),
    {
        match self {
            KnownStatistic::FailureRate
            | KnownStatistic::SuccessRate
            | KnownStatistic::SuccessRatePast24h => StatType::Percentage,
            KnownStatistic::AvgJobsPerMinutePastHour
            | KnownStatistic::AvgJobDurationMins
            | KnownStatistic::LongestRunningJobMins
            | KnownStatistic::AvgJobsPerHourPast24h
            | KnownStatistic::AvgJobsPerDayPast7d => StatType::Decimal,
            KnownStatistic::MostRecentJob | KnownStatistic::OldestPendingJob => StatType::Timestamp,
            _ => StatType::Number,
        }
    }

    /// The statistic that a reported name stands for. A name that stands for
    /// none is an error that quotes it.
    pub fn from_str(s: &str) -> (stat: Result<KnownStatistic, String>)
        ensures
            match stat_of_name(s@) {
                Some(known) => stat == Ok::<KnownStatistic, String>(known),
                None => stat is Err && stat->Err_0@ == unknown_statistic(s@),
            },
    {
        if same_text(s, "RUNNING_JOBS") {
            Ok(KnownStatistic::RunningJobs)
        } else if same_text(s, "PENDING_JOBS") {
            Ok(KnownStatistic::PendingJobs)
        } else if same_text(s, "FAILED_JOBS") {
            Ok(KnownStatistic::FailedJobs)
        } else if same_text(s, "ACTIVE_JOBS") {
            Ok(KnownStatistic::ActiveJobs)
        } else if same_text(s, "STALE_RUNNING_JOBS") {
            Ok(KnownStatistic::StaleRunningJobs)
        } else if same_text(s, "FAILURE_RATE") {
            Ok(KnownStatistic::FailureRate)
        } else if same_text(s, "JOBS_PAST_HOUR") {
            Ok(KnownStatistic::JobsPastHour)
        } else if same_text(s, "JOBS_TODAY") {
            Ok(KnownStatistic::JobsToday)
        } else if same_text(s, "FAILED_JOBS_TODAY") {
            Ok(KnownStatistic::FailedJobsToday)
        } else if same_text(s, "AVG_JOBS_PER_MINUTE_PAST_HOUR") {
            Ok(KnownStatistic::AvgJobsPerMinutePastHour)
        } else if same_text(s, "TOTAL_JOBS") {
            Ok(KnownStatistic::TotalJobs)
        } else if same_text(s, "DONE_JOBS") {
            Ok(KnownStatistic::DoneJobs)
        } else if same_text(s, "COMPLETED_JOBS") {
            Ok(KnownStatistic::CompletedJobs)
        } else if same_text(s, "KILLED_JOBS") {
            Ok(KnownStatistic::KilledJobs)
        } else if same_text(s, "SUCCESS_RATE") {
            Ok(KnownStatistic::SuccessRate)
        } else if same_text(s, "AVG_JOB_DURATION_MINS") {
            Ok(KnownStatistic::AvgJobDurationMins)
        } else if same_text(s, "LONGEST_RUNNING_JOB_MINS") {
            Ok(KnownStatistic::LongestRunningJobMins)
        } else if same_text(s, "QUEUE_BACKLOG") {
            Ok(KnownStatistic::QueueBacklog)
        } else if same_text(s, "JOBS_PAST_24_HOURS") {
            Ok(KnownStatistic::JobsPast24Hours)
        } else if same_text(s, "JOBS_PAST_7_DAYS") {
            Ok(KnownStatistic::JobsPast7Days)
        } else if same_text(s, "FAILED_JOBS_PAST_7_DAYS") {
            Ok(KnownStatistic::FailedJobsPast7Days)
        } else if same_text(s, "SUCCESS_RATE_PAST_24H") {
            Ok(KnownStatistic::SuccessRatePast24h)
        } else if same_text(s, "AVG_JOBS_PER_HOUR_PAST_24H") {
            Ok(KnownStatistic::AvgJobsPerHourPast24h)
        } else if same_text(s, "AVG_JOBS_PER_DAY_PAST_7D") {
            Ok(KnownStatistic::AvgJobsPerDayPast7d)
        } else if same_text(s, "MOST_RECENT_JOB") {
            Ok(KnownStatistic::MostRecentJob)
        } else if same_text(s, "OLDEST_PENDING_JOB") {
            Ok(KnownStatistic::OldestPendingJob)
        } else if same_text(s, "PEAK_HOUR_JOBS") {
            Ok(KnownStatistic::PeakHourJobs)
        } else if same_text(s, "DB_PAGE_SIZE") {
            Ok(KnownStatistic::DbPageSize)
        } else if same_text(s, "DB_PAGE_COUNT") {
            Ok(KnownStatistic::DbPageCount)
        } else if same_text(s, "DB_SIZE") {
            Ok(KnownStatistic::DbSize)
        } else {
            let mut message = String::from_str("Unknown statistic: ");
            message.append(s);
            Err(message)
        }
    }
}

/// Every statistic is read back from the name it is reported under.
pub proof fn lemma_stat_name_round_trip(stat: KnownStatistic)
    ensures
        stat_of_name(stat_name(stat)) == Some(stat),
{
    reveal_strlit("RUNNING_JOBS");
    assert("RUNNING_JOBS"@.len() == 12);
    reveal_strlit("PENDING_JOBS");
    assert("PENDING_JOBS"@.len() == 12);
    reveal_strlit("FAILED_JOBS");
    assert("FAILED_JOBS"@.len() == 11);
    reveal_strlit("ACTIVE_JOBS");
    assert("ACTIVE_JOBS"@.len() == 11);
    reveal_strlit("STALE_RUNNING_JOBS");
    assert("STALE_RUNNING_JOBS"@.len() == 18);
    reveal_strlit("FAILURE_RATE");
    assert("FAILURE_RATE"@.len() == 12);
    reveal_strlit("JOBS_PAST_HOUR");
    assert("JOBS_PAST_HOUR"@.len() == 14);
    reveal_strlit("JOBS_TODAY");
    assert("JOBS_TODAY"@.len() == 10);
    reveal_strlit("FAILED_JOBS_TODAY");
    assert("FAILED_JOBS_TODAY"@.len() == 17);
    reveal_strlit("AVG_JOBS_PER_MINUTE_PAST_HOUR");
    assert("AVG_JOBS_PER_MINUTE_PAST_HOUR"@.len() == 29);
    reveal_strlit("TOTAL_JOBS");
    assert("TOTAL_JOBS"@.len() == 10);
    reveal_strlit("DONE_JOBS");
    assert("DONE_JOBS"@.len() == 9);
    reveal_strlit("COMPLETED_JOBS");
    assert("COMPLETED_JOBS"@.len() == 14);
    reveal_strlit("KILLED_JOBS");
    assert("KILLED_JOBS"@.len() == 11);
    reveal_strlit("SUCCESS_RATE");
    assert("SUCCESS_RATE"@.len() == 12);
    reveal_strlit("AVG_JOB_DURATION_MINS");
    assert("AVG_JOB_DURATION_MINS"@.len() == 21);
    reveal_strlit("LONGEST_RUNNING_JOB_MINS");
    assert("LONGEST_RUNNING_JOB_MINS"@.len() == 24);
    reveal_strlit("QUEUE_BACKLOG");
    assert("QUEUE_BACKLOG"@.len() == 13);
    reveal_strlit("JOBS_PAST_24_HOURS");
    assert("JOBS_PAST_24_HOURS"@.len() == 18);
    reveal_strlit("JOBS_PAST_7_DAYS");
    assert("JOBS_PAST_7_DAYS"@.len() == 16);
    reveal_strlit("FAILED_JOBS_PAST_7_DAYS");
    assert("FAILED_JOBS_PAST_7_DAYS"@.len() == 23);
    reveal_strlit("SUCCESS_RATE_PAST_24H");
    assert("SUCCESS_RATE_PAST_24H"@.len() == 21);
    reveal_strlit("AVG_JOBS_PER_HOUR_PAST_24H");
    assert("AVG_JOBS_PER_HOUR_PAST_24H"@.len() == 26);
    reveal_strlit("AVG_JOBS_PER_DAY_PAST_7D");
    assert("AVG_JOBS_PER_DAY_PAST_7D"@.len() == 24);
    reveal_strlit("MOST_RECENT_JOB");
    assert("MOST_RECENT_JOB"@.len() == 15);
    reveal_strlit("OLDEST_PENDING_JOB");
    assert("OLDEST_PENDING_JOB"@.len() == 18);
    reveal_strlit("PEAK_HOUR_JOBS");
    assert("PEAK_HOUR_JOBS"@.len() == 14);
    reveal_strlit("DB_PAGE_SIZE");
    assert("DB_PAGE_SIZE"@.len() == 12);
    reveal_strlit("DB_PAGE_COUNT");
    assert("DB_PAGE_COUNT"@.len() == 13);
    reveal_strlit("DB_SIZE");
    assert("DB_SIZE"@.len() == 7);
    // names of one length differ in at least one place
    assert("RUNNING_JOBS"@[0] != "PENDING_JOBS"@[0]);
    assert("FAILED_JOBS"@[0] != "ACTIVE_JOBS"@[0]);
    assert("RUNNING_JOBS"@[0] != "FAILURE_RATE"@[0]);
    assert("PENDING_JOBS"@[0] != "FAILURE_RATE"@[0]);
    assert("JOBS_TODAY"@[0] != "TOTAL_JOBS"@[0]);
    assert("JOBS_PAST_HOUR"@[0] != "COMPLETED_JOBS"@[0]);
    assert("FAILED_JOBS"@[0] != "KILLED_JOBS"@[0]);
    assert("ACTIVE_JOBS"@[0] != "KILLED_JOBS"@[0]);
    assert("RUNNING_JOBS"@[0] != "SUCCESS_RATE"@[0]);
    assert("PENDING_JOBS"@[0] != "SUCCESS_RATE"@[0]);
    assert("FAILURE_RATE"@[0] != "SUCCESS_RATE"@[0]);
    assert("STALE_RUNNING_JOBS"@[0] != "JOBS_PAST_24_HOURS"@[0]);
    assert("AVG_JOB_DURATION_MINS"@[0] != "SUCCESS_RATE_PAST_24H"@[0]);
    assert("LONGEST_RUNNING_JOB_MINS"@[0] != "AVG_JOBS_PER_DAY_PAST_7D"@[0]);
    assert("STALE_RUNNING_JOBS"@[0] != "OLDEST_PENDING_JOB"@[0]);
    assert("JOBS_PAST_24_HOURS"@[0] != "OLDEST_PENDING_JOB"@[0]);
    assert("JOBS_PAST_HOUR"@[0] != "PEAK_HOUR_JOBS"@[0]);
    assert("COMPLETED_JOBS"@[0] != "PEAK_HOUR_JOBS"@[0]);
    assert("RUNNING_JOBS"@[0] != "DB_PAGE_SIZE"@[0]);
    assert("PENDING_JOBS"@[0] != "DB_PAGE_SIZE"@[0]);
    assert("FAILURE_RATE"@[0] != "DB_PAGE_SIZE"@[0]);
    assert("SUCCESS_RATE"@[0] != "DB_PAGE_SIZE"@[0]);
    assert("QUEUE_BACKLOG"@[0] != "DB_PAGE_COUNT"@[0]);
}

impl std::str::FromStr for KnownStatistic {
    type Err = String;

    fn from_str(s: &str) -> (stat: Result<Self, String>)
        ensures
            match stat_of_name(s@) {
                Some(known) => stat == Ok::<KnownStatistic, String>(known),
                None => stat is Err && stat->Err_0@ == unknown_statistic(s@),
            },
    {
        KnownStatistic::from_str(s)
    }
}

} // verus!
