//! The statements sent to the server for the classic trace backend. Arming
//! names its trace file after, and leaves out the traffic of, the
//! application `SimpleSQLProfiler`.
use vstd::prelude::*;

verus! {

/// Creates and starts the trace; its one result row holds `trace_id` and
/// `trace_file`.
pub const TRACE_CREATE_AND_START: &'static str = "
DECLARE @trace_id int;
DECLARE @trace_options int = 0;
DECLARE @max_file_mb bigint = 1024;
DECLARE @on bit = 1;

DECLARE @errorlog nvarchar(260) = CONVERT(nvarchar(260), SERVERPROPERTY('ErrorLogFileName'));
DECLARE @directory nvarchar(260) = LEFT(@errorlog, LEN(@errorlog) - CHARINDEX('\\', REVERSE(@errorlog)) + 1);
DECLARE @trace_file nvarchar(260) =
    @directory + N'SimpleSQLProfiler_' + REPLACE(CONVERT(nvarchar(36), NEWID()), N'-', N'') + N'.trc';

EXEC sp_trace_create @trace_id OUTPUT, @trace_options, @trace_file, @max_file_mb, NULL;

DECLARE @events TABLE(id int);
INSERT INTO @events(id)
VALUES
    ((SELECT trace_event_id FROM sys.trace_events WHERE name = N'RPC:Completed')),
    ((SELECT trace_event_id FROM sys.trace_events WHERE name = N'SQL:BatchCompleted'));

IF EXISTS (SELECT 1 FROM @events WHERE id IS NULL)
BEGIN
    RAISERROR('Required SQL Trace events are unavailable on this server.', 16, 1);
    RETURN;
END

DECLARE @columns TABLE(id int);
INSERT INTO @columns(id)
VALUES
    (1),  -- TextData
    (8),  -- HostName
    (10), -- ApplicationName
    (11), -- LoginName
    (12), -- SPID
    (13), -- Duration
    (14), -- StartTime
    (15), -- EndTime
    (16), -- Reads
    (17), -- Writes
    (18), -- CPU
    (35), -- DatabaseName
    (48), -- RowCounts
    (51); -- EventSequence

DECLARE @event_id int;
DECLARE @column_id int;
DECLARE event_col_cursor CURSOR LOCAL FAST_FORWARD FOR
    SELECT e.id, c.id
    FROM @events e
    CROSS JOIN @columns c;

OPEN event_col_cursor;
FETCH NEXT FROM event_col_cursor INTO @event_id, @column_id;
WHILE @@FETCH_STATUS = 0
BEGIN
    EXEC sp_trace_setevent @trace_id, @event_id, @column_id, @on;
    FETCH NEXT FROM event_col_cursor INTO @event_id, @column_id;
END
CLOSE event_col_cursor;
DEALLOCATE event_col_cursor;

-- Exclude this app itself
EXEC sp_trace_setfilter @trace_id, 10, 0, 7, N'%SimpleSQLProfiler%';

EXEC sp_trace_setstatus @trace_id, 1;

SELECT @trace_id AS trace_id, t.path AS trace_file
FROM sys.traces t
WHERE t.id = @trace_id;
";

/// Stops and closes the trace whose id is bound as the first parameter,
/// swallowing errors of either step.
pub const TRACE_STOP_AND_CLOSE: &'static str = "
IF EXISTS (SELECT 1 FROM sys.traces WHERE id = @P1)
BEGIN
    BEGIN TRY
        EXEC sp_trace_setstatus @P1, 0;
    END TRY
    BEGIN CATCH
    END CATCH;

    BEGIN TRY
        EXEC sp_trace_setstatus @P1, 2;
    END TRY
    BEGIN CATCH
    END CATCH;
END
";

/// Reads at most 5000 completed RPC and batch rows past the watermark, in
/// (start time, ordinal) order. Parameters: the trace file, then the
/// watermark's start time and event ordinal.
pub const TRACE_POLL_EVENTS: &'static str = "
SELECT TOP (5000)
    CAST(EventClass AS int) AS event_class,
    CONVERT(varchar(27), StartTime, 126) AS start_time,
    CAST(ISNULL(EventSequence, 0) AS bigint) AS event_sequence,
    CAST(ISNULL(Duration, 0) AS bigint) AS duration_us,
    CAST(ISNULL(CPU, 0) AS bigint) AS cpu_ms,
    CAST(ISNULL(Reads, 0) AS bigint) AS reads,
    CAST(ISNULL(Writes, 0) AS bigint) AS writes,
    CAST(ISNULL(RowCounts, 0) AS bigint) AS row_count,
    CAST(ISNULL(TextData, N'') AS nvarchar(max)) AS text_data,
    CAST(ISNULL(DatabaseName, N'') AS nvarchar(128)) AS database_name,
    CAST(ISNULL(LoginName, N'') AS nvarchar(128)) AS login_name,
    CAST(ISNULL(HostName, N'') AS nvarchar(128)) AS host_name,
    CAST(ISNULL(ApplicationName, N'') AS nvarchar(128)) AS program_name,
    CAST(ISNULL(SPID, 0) AS int) AS session_id
FROM sys.fn_trace_gettable(@P1, 1)
WHERE EventClass IN (10, 12)
  AND ISNULL(ApplicationName, N'') NOT LIKE N'%SimpleSQLProfiler%'
  AND (
      CONVERT(varchar(27), StartTime, 126) > @P2
      OR (
          CONVERT(varchar(27), StartTime, 126) = @P2
          AND CAST(ISNULL(EventSequence, 0) AS bigint) > @P3
      )
  )
ORDER BY
    CONVERT(varchar(27), StartTime, 126) ASC,
    CAST(ISNULL(EventSequence, 0) AS bigint) ASC;
";

} // verus!
