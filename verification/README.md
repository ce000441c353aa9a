# komodo_core

The decision logic of the Komodo core server, verified with Verus.

- `src/` is the library. Every function carries a `requires`/`ensures`
  contract that Verus proves; the properties that span several functions
  are stated as `law_*` proof functions next to the code they are about.
  Calls into `indexmap`, `mogh_validations`, `mogh_pki`,
  `async_timing_util`, `svi`, `urlencoding` and a few `std` string
  functions stand behind small trusted wrappers whose doc comments say
  what their contracts claim.
- `tests/` runs the library on concrete values.
- `app/` is a small command line around the library: it reads compose
  files and JSON, formats the alerts that report measured quantities,
  and prints results.

Modules of the library, by area:

| Area | Modules |
|------|---------|
| Permissions | `permission`, `specifics`, `target` |
| Executions and updates | `action_state`, `update`, `procedure`, `cli`, `deployment_exec` |
| Monitoring and alerts | `monitor`, `alerts`, `alert_message`, `summary`, `swarm_request` |
| Deployments and stacks | `listing`, `deployment`, `deployment_update`, `deploy`, `image_digest`, `services`, `container_import`, `extra_args` |
| Servers and connections | `connection`, `onboarding`, `key_rotation`, `terminal`, `terminal_order` |
| Users and auth | `auth`, `users`, `validations` |
| Shared | `text`, `paging`, `cloud` |
