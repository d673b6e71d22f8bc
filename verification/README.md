# qbot_core

The queue, menu and matchmaking logic of the qBot pick-up-game bot for
Discord, written in Verus: every function of the library carries a
contract that Verus proves.

- `src/` is the library. Each module states at its top what it covers:
  queue categories and their sessions (`category`, `dash_actions`,
  `dash_press`, `expiry`), the dashboard (`dashboard`, `dashboard_view`),
  announcements and their rate limit (`alerts`, `alert_embed`,
  `alert_forms`), the server, category, rank and preference pages
  (`settings*`, `menu_system`, `server_config`, `user_prefs`, `pref_pages`,
  `group_pages`, `rank_pages`, `nav_pages`), linking an existing channel
  category (`link`, `link_options`), the one-command setup (`setup`),
  forms and button ids, and the manager's bookkeeping.
- `tests/` runs the library on concrete values.
- `app/` holds what stays outside the library: the start-up check of the
  menu handlers, the clock, files, logging, and the floating-point ELO
  engine.
