# balls_github_issues

The GitHub Issues mirror for balls: a task store kept in step with the issues
of one GitHub repository. Balls owns content; GitHub owns only the close
transition inward. The `[bl-xxxx]` marker on an issue title joins an issue to
its ball, and a per-clone reconciliation base records the last state both
sides agreed on, so neither direction echoes the other.

- `src/` is the verified library: the marker grammar, the body hash, the
  reconciliation base, the push and pull decisions, the sync-report
  emission with its ingest defenses, the hook routing and the error surface,
  each with its contract and the laws that tie them together.
- `app/` is the binary around it: argv and environment, stdin, files, the
  GitHub REST calls, and the `bl` processes the pull side shells.
- `tests/` runs the library on concrete values.
